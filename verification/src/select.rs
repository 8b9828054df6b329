//! Selection state: a list of which one item may be selected, and a fixed
//! set of values (panes, tabs) of which one is always selected.

use vstd::prelude::*;
use vstd::string::*;

verus! {

/// A list of items, one of which may be selected.
#[derive(Debug, PartialEq, Eq)]
pub struct StatefulList<T> {
    selected: Option<usize>,
    pub items: Vec<T>,
}

/// A type with a fixed, ordered, non-empty set of values that can be cycled
/// through, such as the panes of a screen or the tabs of a pane.
pub trait FixedSelect: Sized {
    /// All values of the type, in the order in which they are cycled.
    spec fn all() -> Seq<Self>;

    /// All values of the type, in order. There is at least one.
    fn values() -> (values: Vec<Self>)
        ensures
            values@ == Self::all(),
            values@.len() > 0,
    ;

    /// Position of the value that is selected at first.
    spec fn first_selected() -> int;

    /// Position of the value that is selected at first.
    fn default_index() -> (index: usize)
        ensures
            index == Self::first_selected(),
            index < Self::all().len(),
    ;

    /// Position of this value among all values.
    spec fn position(&self) -> int;

    /// Every value stands at its position, and nowhere else.
    proof fn lemma_positions(i: int)
        requires
            0 <= i < Self::all().len(),
        ensures
            Self::all()[i].position() == i,
    ;

    /// Position of this value among all values.
    fn index(&self) -> (index: usize)
        ensures
            index == self.position(),
            index < Self::all().len(),
            Self::all()[index as int] == *self,
    ;

    /// The value's name, as it is shown.
    fn label(&self) -> String;
}

/// The values of a [`FixedSelect`] type, with one of them selected.
pub struct StatefulSelect<T: FixedSelect> {
    values: Vec<T>,
    selected: usize,
}

/// The panes of the main screen.
#[derive(Clone, Copy, Debug, PartialEq, Eq, Structural)]
pub enum PrimaryPane {
    ProfileList,
    RecipeList,
    Request,
    Response,
}

/// The tabs of the request pane.
#[derive(Clone, Copy, Debug, PartialEq, Eq, Structural)]
pub enum RequestTab {
    Body,
    Query,
    Headers,
}

/// The tabs of the response pane.
#[derive(Clone, Copy, Debug, PartialEq, Eq, Structural)]
pub enum ResponseTab {
    Body,
    Headers,
}

/// The position before `index` in a cycle of `len` positions.
pub open spec fn cycle_back(index: int, len: int) -> int {
    if index == 0 {
        len - 1
    } else {
        index - 1
    }
}

/// The position after `index` in a cycle of `len` positions.
pub open spec fn cycle_on(index: int, len: int) -> int {
    if index + 1 < len {
        index + 1
    } else {
        (index + 1) % len
    }
}

impl<T> StatefulList<T> {
    /// Position of the selected item, if one is selected.
    pub closed spec fn selection(&self) -> Option<usize> {
        self.selected
    }

    /// The items of the list.
    pub closed spec fn elements(&self) -> Seq<T> {
        self.items@
    }

    /// A list of the given items. The first item is selected, if there is
    /// one.
    pub fn with_items(items: Vec<T>) -> (list: StatefulList<T>)
        ensures
            list.elements() == items@,
            list.selection() == if items@.len() > 0 {
                Some(0usize)
            } else {
                None
            },
    {
        let selected = if items.len() > 0 {
            Some(0)
        } else {
            None
        };
        StatefulList { selected, items }
    }

    /// The selected item, if one is selected and the list holds it.
    pub fn selected(&self) -> (item: Option<&T>)
        ensures
            match self.selection() {
                Some(i) if i < self.elements().len() => item == Some(&self.elements()[i as int]),
                _ => item is None,
            },
    {
        match self.selected {
            Some(i) => if i < self.items.len() {
                Some(&self.items[i])
            } else {
                None
            },
            None => None,
        }
    }

    /// Position of the selected item, if one is selected.
    pub fn selected_index(&self) -> (index: Option<usize>)
        ensures
            index == self.selection(),
    {
        self.selected
    }

    /// Select the item at a position, or none.
    pub fn select(&mut self, index: Option<usize>)
        ensures
            final(self).selection() == index,
            final(self).elements() == old(self).elements(),
    {
        self.selected = index;
    }

    /// Number of items in the list.
    pub fn len(&self) -> (n: usize)
        ensures
            n == self.elements().len(),
    {
        self.items.len()
    }

    /// Select the item before the selected one, or the last item from the
    /// first; with nothing selected, the first item.
    pub fn previous(&mut self)
        requires
            old(self).selection() == Some(0usize) ==> old(self).elements().len() > 0,
        ensures
            final(self).elements() == old(self).elements(),
            final(self).selection() == match old(self).selection() {
                Some(i) => Some(cycle_back(i as int, old(self).elements().len() as int) as usize),
                None => Some(0usize),
            },
    {
        let i = match self.selected {
            Some(i) => {
                if i == 0 {
                    self.items.len() - 1
                } else {
                    i - 1
                }
            },
            None => 0,
        };
        self.selected = Some(i);
    }

    /// Select the item after the selected one, or the first item from the
    /// last; with nothing selected, the first item.
    pub fn next(&mut self)
        requires
            old(self).selection() is Some ==> old(self).elements().len() > 0 && old(
                self,
            ).selection()->0 < usize::MAX,
        ensures
            final(self).elements() == old(self).elements(),
            final(self).selection() == match old(self).selection() {
                Some(i) => Some(cycle_on(i as int, old(self).elements().len() as int) as usize),
                None => Some(0usize),
            },
    {
        let i = match self.selected {
            Some(i) => {
                proof {
                    if i + 1 < self.items@.len() {
                        vstd::arithmetic::div_mod::lemma_small_mod(
                            (i + 1) as nat,
                            self.items@.len() as nat,
                        );
                    }
                }
                (i + 1) % self.items.len()
            },
            None => 0,
        };
        self.selected = Some(i);
    }
}

impl<T: FixedSelect> StatefulSelect<T> {
    #[verifier::type_invariant]
    closed spec fn valid(&self) -> bool {
        &&& self.values@ == T::all()
        &&& self.selected < self.values@.len()
    }

    /// Position of the selected value.
    pub closed spec fn selection(&self) -> int {
        self.selected as int
    }

    /// All values, with the default one selected.
    pub fn new() -> (select: StatefulSelect<T>)
        ensures
            select.selection() == T::first_selected(),
            0 <= select.selection() < T::all().len(),
    {
        StatefulSelect { values: T::values(), selected: T::default_index() }
    }

    /// Position of the selected value.
    pub fn selected_index(&self) -> (index: usize)
        ensures
            index == self.selection(),
            index < T::all().len(),
    {
        proof {
            use_type_invariant(self);
        }
        self.selected
    }

    /// The selected value.
    pub fn selected(&self) -> (value: &T)
        ensures
            0 <= self.selection() < T::all().len(),
            *value == T::all()[self.selection()],
    {
        proof {
            use_type_invariant(self);
        }
        &self.values[self.selected]
    }

    /// Whether `item` is the selected value.
    pub fn is_selected(&self, item: &T) -> (selected: bool)
        ensures
            0 <= self.selection() < T::all().len(),
            selected == (*item == T::all()[self.selection()]),
    {
        proof {
            use_type_invariant(self);
            T::lemma_positions(self.selected as int);
        }
        item.index() == self.selected
    }

    /// Select the value before the selected one, or the last value from the
    /// first. Tells whether the selection changed.
    pub fn previous(&mut self) -> (changed: bool)
        ensures
            final(self).selection() == cycle_back(old(self).selection(), T::all().len() as int),
            changed == (final(self).selection() != old(self).selection()),
    {
        proof {
            use_type_invariant(&*self);
        }
        let old_index = self.selected;
        let index = if old_index == 0 {
            self.values.len() - 1
        } else {
            old_index - 1
        };
        self.selected = index;
        old_index != index
    }

    /// Select the value after the selected one, or the first value from the
    /// last. Tells whether the selection changed.
    pub fn next(&mut self) -> (changed: bool)
        ensures
            final(self).selection() == cycle_on(old(self).selection(), T::all().len() as int),
            changed == (final(self).selection() != old(self).selection()),
    {
        proof {
            use_type_invariant(&*self);
        }
        let old_index = self.selected;
        let last = self.values.len() - 1;
        let index = if old_index < last {
            old_index + 1
        } else {
            0
        };
        assert(index == cycle_on(old_index as int, self.values@.len() as int)) by {
            if old_index + 1 < self.values@.len() {
                vstd::arithmetic::div_mod::lemma_small_mod(
                    (old_index + 1) as nat,
                    self.values@.len() as nat,
                );
            } else {
                vstd::arithmetic::div_mod::lemma_mod_self_0(self.values@.len() as int);
            }
        }
        self.selected = index;
        old_index != index
    }
}

impl<T: FixedSelect> Default for StatefulSelect<T> {
    fn default() -> (select: StatefulSelect<T>)
        ensures
            select.selection() == T::first_selected(),
    {
        StatefulSelect::new()
    }
}

impl FixedSelect for PrimaryPane {
    open spec fn first_selected() -> int {
        1
    }

    open spec fn all() -> Seq<PrimaryPane> {
        seq![
            PrimaryPane::ProfileList,
            PrimaryPane::RecipeList,
            PrimaryPane::Request,
            PrimaryPane::Response,
        ]
    }

    open spec fn position(&self) -> int {
        match self {
            PrimaryPane::ProfileList => 0,
            PrimaryPane::RecipeList => 1,
            PrimaryPane::Request => 2,
            PrimaryPane::Response => 3,
        }
    }

    proof fn lemma_positions(i: int) {
    }

    fn values() -> (values: Vec<PrimaryPane>) {
        let values = vec![
            PrimaryPane::ProfileList,
            PrimaryPane::RecipeList,
            PrimaryPane::Request,
            PrimaryPane::Response,
        ];
        assert(values@ =~= Self::all());
        values
    }

    /// The recipe list is selected at first.
    fn default_index() -> (index: usize) {
        1
    }

    fn index(&self) -> (index: usize) {
        match self {
            PrimaryPane::ProfileList => 0,
            PrimaryPane::RecipeList => 1,
            PrimaryPane::Request => 2,
            PrimaryPane::Response => 3,
        }
    }

    fn label(&self) -> (label: String)
        ensures
            label@ == match self {
                PrimaryPane::ProfileList => "Profiles"@,
                PrimaryPane::RecipeList => "Recipes"@,
                PrimaryPane::Request => "Request"@,
                PrimaryPane::Response => "Response"@,
            },
    {
        match self {
            PrimaryPane::ProfileList => String::from_str("Profiles"),
            PrimaryPane::RecipeList => String::from_str("Recipes"),
            PrimaryPane::Request => String::from_str("Request"),
            PrimaryPane::Response => String::from_str("Response"),
        }
    }
}

impl FixedSelect for RequestTab {
    open spec fn first_selected() -> int {
        0
    }

    open spec fn all() -> Seq<RequestTab> {
        seq![RequestTab::Body, RequestTab::Query, RequestTab::Headers]
    }

    open spec fn position(&self) -> int {
        match self {
            RequestTab::Body => 0,
            RequestTab::Query => 1,
            RequestTab::Headers => 2,
        }
    }

    proof fn lemma_positions(i: int) {
    }

    fn values() -> (values: Vec<RequestTab>) {
        let values = vec![RequestTab::Body, RequestTab::Query, RequestTab::Headers];
        assert(values@ =~= Self::all());
        values
    }

    fn default_index() -> (index: usize) {
        0
    }

    fn index(&self) -> (index: usize) {
        match self {
            RequestTab::Body => 0,
            RequestTab::Query => 1,
            RequestTab::Headers => 2,
        }
    }

    fn label(&self) -> (label: String)
        ensures
            label@ == match self {
                RequestTab::Body => "Body"@,
                RequestTab::Query => "Query"@,
                RequestTab::Headers => "Headers"@,
            },
    {
        match self {
            RequestTab::Body => String::from_str("Body"),
            RequestTab::Query => String::from_str("Query"),
            RequestTab::Headers => String::from_str("Headers"),
        }
    }
}

impl FixedSelect for ResponseTab {
    open spec fn first_selected() -> int {
        0
    }

    open spec fn all() -> Seq<ResponseTab> {
        seq![ResponseTab::Body, ResponseTab::Headers]
    }

    open spec fn position(&self) -> int {
        match self {
            ResponseTab::Body => 0,
            ResponseTab::Headers => 1,
        }
    }

    proof fn lemma_positions(i: int) {
    }

    fn values() -> (values: Vec<ResponseTab>) {
        let values = vec![ResponseTab::Body, ResponseTab::Headers];
        assert(values@ =~= Self::all());
        values
    }

    fn default_index() -> (index: usize) {
        0
    }

    fn index(&self) -> (index: usize) {
        match self {
            ResponseTab::Body => 0,
            ResponseTab::Headers => 1,
        }
    }

    fn label(&self) -> (label: String)
        ensures
            label@ == match self {
                ResponseTab::Body => "Body"@,
                ResponseTab::Headers => "Headers"@,
            },
    {
        match self {
            ResponseTab::Body => String::from_str("Body"),
            ResponseTab::Headers => String::from_str("Headers"),
        }
    }
}

} // verus!
