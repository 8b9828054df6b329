//! Transient edits to a recipe. The recipe itself is never cloned or changed:
//! the edits are a sparse patch, keyed by the position of a field in its
//! section, and applied when a request is built.
//!
//! Positions are used rather than keys because keys need not be unique (query
//! parameters may repeat).

use crate::recipe::{Authentication, RecipeBody, Template};
use std::collections::HashMap;
use vstd::prelude::*;

verus! {

broadcast use vstd::std_specs::hash::group_hash_axioms;

/// An edit to one field (query parameter, header, form field) of a recipe.
#[derive(Debug, PartialEq, Eq)]
pub enum BuildFieldOverride {
    /// Leave the field out of the request
    Omit,
    /// Use this template in place of the field's own
    Override(Template),
}

/// The edits to one section of a recipe, by position of the field.
#[derive(Debug, PartialEq)]
pub struct BuildFieldOverrides {
    overrides: HashMap<usize, BuildFieldOverride>,
}

/// All edits to a recipe for one build.
#[derive(Debug, PartialEq)]
pub struct BuildOptions {
    /// Authentication can be replaced as a whole, but never removed.
    pub authentication: Option<Authentication>,
    pub headers: BuildFieldOverrides,
    pub query_parameters: BuildFieldOverrides,
    pub form_fields: BuildFieldOverrides,
    /// Replacement for the whole body. Not for recipes whose body is a form:
    /// their fields are edited one by one through `form_fields`.
    pub body: Option<RecipeBody>,
}

/// The value to use for the field at `index`, given the edits `overrides` and
/// the recipe's own value `default`: `None` where the field is to be left out.
pub open spec fn resolve(
    overrides: Map<usize, BuildFieldOverride>,
    index: usize,
    default: Template,
) -> Option<Template> {
    if overrides.contains_key(index) {
        match overrides[index] {
            BuildFieldOverride::Omit => None,
            BuildFieldOverride::Override(template) => Some(template),
        }
    } else {
        Some(default)
    }
}

/// The edits that a list of pairs describes: a later pair replaces an earlier
/// one for the same position.
pub open spec fn overrides_of(pairs: Seq<(usize, BuildFieldOverride)>) -> Map<
    usize,
    BuildFieldOverride,
>
    decreases pairs.len(),
{
    if pairs.len() == 0 {
        Map::empty()
    } else {
        overrides_of(pairs.drop_last()).insert(pairs.last().0, pairs.last().1)
    }
}

/// A field without an edit keeps its own value, an omitted field has none,
/// and a replaced field has the replacement.
pub proof fn lemma_resolve(
    overrides: Map<usize, BuildFieldOverride>,
    index: usize,
    default: Template,
)
    ensures
        !overrides.contains_key(index) ==> resolve(overrides, index, default) == Some(default),
        overrides.contains_key(index) && overrides[index] is Omit ==> resolve(
            overrides,
            index,
            default,
        ) is None,
        forall|template: Template|
            overrides.contains_key(index) && overrides[index] == BuildFieldOverride::Override(
                template,
            ) ==> resolve(overrides, index, default) == Some(template),
{
}

impl Clone for BuildFieldOverride {
    fn clone(&self) -> (copy: BuildFieldOverride)
        ensures
            copy == *self,
    {
        match self {
            BuildFieldOverride::Omit => BuildFieldOverride::Omit,
            BuildFieldOverride::Override(template) => BuildFieldOverride::Override(
                template.clone(),
            ),
        }
    }
}

impl View for BuildFieldOverrides {
    type V = Map<usize, BuildFieldOverride>;

    closed spec fn view(&self) -> Map<usize, BuildFieldOverride> {
        self.overrides@
    }
}

impl BuildFieldOverrides {
    /// No edits.
    pub fn new() -> (s: BuildFieldOverrides)
        ensures
            s@ == Map::<usize, BuildFieldOverride>::empty(),
    {
        BuildFieldOverrides { overrides: HashMap::new() }
    }

    /// Record an edit for the field at `index`, in place of any earlier one.
    pub fn insert(&mut self, index: usize, field: BuildFieldOverride)
        ensures
            final(self)@ == old(self)@.insert(index, field),
    {
        self.overrides.insert(index, field);
    }

    /// The edits that `pairs` describes.
    pub fn from_pairs(pairs: Vec<(usize, BuildFieldOverride)>) -> (s: BuildFieldOverrides)
        ensures
            s@ == overrides_of(pairs@),
    {
        let mut result = BuildFieldOverrides::new();
        let mut i: usize = 0;
        while i < pairs.len()
            invariant
                i <= pairs@.len(),
                result@ == overrides_of(pairs@.subrange(0, i as int)),
            decreases pairs@.len() - i,
        {
            let field = pairs[i].1.clone();
            assert(pairs@.subrange(0, i + 1).drop_last() == pairs@.subrange(0, i as int));
            result.insert(pairs[i].0, field);
            i += 1;
        }
        assert(pairs@.subrange(0, i as int) == pairs@);
        result
    }

    /// The value to use for the field at `index`: `None` where the field is
    /// to be left out of the request, `default` where it has no edit.
    pub fn get<'a>(&'a self, index: usize, default: &'a Template) -> (value: Option<&'a Template>)
        ensures
            match value {
                Some(template) => Some(*template),
                None => None,
            } == resolve(self@, index, *default),
    {
        match self.overrides.get(&index) {
            Some(BuildFieldOverride::Omit) => None,
            Some(BuildFieldOverride::Override(template)) => Some(template),
            None => Some(default),
        }
    }
}

impl BuildOptions {
    /// The options can be used on a recipe with the given body: they do not
    /// replace the body of a recipe whose body is a form.
    pub open spec fn fits(&self, recipe_body: Option<RecipeBody>) -> bool {
        self.body is Some ==> !(recipe_body is Some && recipe_body->0.is_form())
    }

    /// Whether the options can be used on a recipe with the given body. The
    /// body of a form is edited field by field, never replaced as a whole.
    pub fn is_valid_for(&self, recipe_body: Option<&RecipeBody>) -> (valid: bool)
        ensures
            valid == self.fits(
                match recipe_body {
                    Some(body) => Some(*body),
                    None => None,
                },
            ),
    {
        match (&self.body, recipe_body) {
            (Some(_), Some(RecipeBody::FormUrlencoded(_))) => false,
            (Some(_), Some(RecipeBody::FormMultipart(_))) => false,
            _ => true,
        }
    }

    /// No edits at all: the recipe is built as it stands.
    pub fn new() -> (options: BuildOptions)
        ensures
            options.authentication is None,
            options.body is None,
            options.headers@ == Map::<usize, BuildFieldOverride>::empty(),
            options.query_parameters@ == Map::<usize, BuildFieldOverride>::empty(),
            options.form_fields@ == Map::<usize, BuildFieldOverride>::empty(),
    {
        BuildOptions {
            authentication: None,
            headers: BuildFieldOverrides::new(),
            query_parameters: BuildFieldOverrides::new(),
            form_fields: BuildFieldOverrides::new(),
            body: None,
        }
    }
}

} // verus!
