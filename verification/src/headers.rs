//! Header lists. A list keeps its entries in the order in which they were
//! added and may hold a name more than once. Values are raw bytes, since a
//! header value need not be text.

use crate::text::{eq_ignoring_case, same_ignoring_case};
use vstd::prelude::*;
use vstd::utf8::*;

verus! {

/// One header: its name and its value.
#[derive(Debug, PartialEq, Eq)]
pub struct Header {
    pub name: String,
    pub value: Vec<u8>,
}

/// An ordered list of headers.
#[derive(Debug, PartialEq, Eq)]
pub struct Headers {
    pub entries: Vec<Header>,
}

impl View for Header {
    type V = (Seq<char>, Seq<u8>);

    open spec fn view(&self) -> (Seq<char>, Seq<u8>) {
        (self.name@, self.value@)
    }
}

impl View for Headers {
    type V = Seq<(Seq<char>, Seq<u8>)>;

    open spec fn view(&self) -> Seq<(Seq<char>, Seq<u8>)> {
        self.entries@.map_values(|h: Header| h@)
    }
}

/// Header names are the same but for the case of ASCII letters.
pub open spec fn same_name(a: Seq<char>, b: Seq<char>) -> bool {
    same_ignoring_case(encode_utf8(a), encode_utf8(b))
}

/// The position at or after `from` of the first header called `name`; the
/// length of the list where there is none.
pub open spec fn position(headers: Seq<(Seq<char>, Seq<u8>)>, name: Seq<char>, from: int) -> int
    decreases headers.len() - from,
{
    if from >= headers.len() {
        headers.len() as int
    } else if same_name(headers[from].0, name) {
        from
    } else {
        position(headers, name, from + 1)
    }
}

/// The value of the first header called `name`, if there is one.
pub open spec fn lookup(headers: Seq<(Seq<char>, Seq<u8>)>, name: Seq<char>) -> Option<Seq<u8>> {
    let at = position(headers, name, 0);
    if at < headers.len() {
        Some(headers[at].1)
    } else {
        None
    }
}

/// The view of an optional value.
pub open spec fn value_view(value: Option<&Vec<u8>>) -> Option<Seq<u8>> {
    match value {
        Some(v) => Some(v@),
        None => None,
    }
}

impl Header {
    pub fn new(name: String, value: Vec<u8>) -> (header: Header)
        ensures
            header@ == (name@, value@),
    {
        Header { name, value }
    }
}

impl Clone for Header {
    fn clone(&self) -> (copy: Header)
        ensures
            copy@ == self@,
    {
        Header { name: self.name.clone(), value: self.value.clone() }
    }
}

impl Headers {
    /// The empty list.
    pub fn new() -> (headers: Headers)
        ensures
            headers@ == Seq::<(Seq<char>, Seq<u8>)>::empty(),
    {
        let headers = Headers { entries: Vec::new() };
        assert(headers@ =~= Seq::<(Seq<char>, Seq<u8>)>::empty());
        headers
    }

    /// Add a header at the end of the list.
    pub fn append(&mut self, name: String, value: Vec<u8>)
        ensures
            final(self)@ == old(self)@.push((name@, value@)),
    {
        self.entries.push(Header { name, value });
        assert(self@ =~= old(self)@.push((name@, value@)));
    }

    /// Number of headers in the list.
    pub fn len(&self) -> (n: usize)
        ensures
            n == self@.len(),
    {
        self.entries.len()
    }

    /// The value of the first header called `name`, whatever the case of
    /// its letters.
    pub fn get(&self, name: &str) -> (value: Option<&Vec<u8>>)
        ensures
            value_view(value) == lookup(self@, name@),
    {
        let wanted = name.as_bytes();
        let mut i: usize = 0;
        while i < self.entries.len()
            invariant
                i <= self.entries@.len(),
                wanted@ == encode_utf8(name@),
                position(self@, name@, 0) == position(self@, name@, i as int),
            decreases self.entries@.len() - i,
        {
            if eq_ignoring_case(self.entries[i].name.as_str().as_bytes(), wanted) {
                return Some(&self.entries[i].value);
            }
            i += 1;
        }
        None
    }
}

impl Clone for Headers {
    fn clone(&self) -> (copy: Headers)
        ensures
            copy@ == self@,
    {
        let mut entries: Vec<Header> = Vec::new();
        let mut i: usize = 0;
        while i < self.entries.len()
            invariant
                i <= self.entries@.len(),
                entries@.len() == i,
                forall|j: int| 0 <= j < i ==> (#[trigger] entries@[j])@ == self.entries@[j]@,
            decreases self.entries@.len() - i,
        {
            entries.push(self.entries[i].clone());
            i += 1;
        }
        let copy = Headers { entries };
        assert(copy@ =~= self@);
        copy
    }
}

} // verus!
