//! A body that is known to be text.

use vstd::prelude::*;

verus! {

/// Content of a message as text. The text can be large, so it is shown by
/// its size and handed out by reference.
#[derive(PartialEq, Eq)]
pub struct Body(String);

impl View for Body {
    type V = Seq<char>;

    closed spec fn view(&self) -> Seq<char> {
        self.0@
    }
}

impl Body {
    pub fn new(text: String) -> (body: Body)
        ensures
            body@ == text@,
    {
        Body(text)
    }

    /// The content.
    pub fn text(&self) -> (text: &str)
        ensures
            text@ == self@,
    {
        self.0.as_str()
    }

    /// The content, owned.
    pub fn into_text(self) -> (text: String)
        ensures
            text@ == self@,
    {
        self.0
    }
}

impl Default for Body {
    fn default() -> (body: Body)
        ensures
            body@ == Seq::<char>::empty(),
    {
        Body(String::new())
    }
}

} // verus!
