//! The parts of a recipe collection that a request refers to. Recipes and
//! profiles themselves live elsewhere; a request only names them.

use vstd::prelude::*;

verus! {

/// Name of a profile: a set of values under which templates are rendered.
#[derive(Debug, PartialEq, Eq, Hash)]
pub struct ProfileId(pub String);

/// Name of a recipe: the template of a request.
#[derive(Debug, PartialEq, Eq, Hash)]
pub struct RecipeId(pub String);

/// Source text of a template. Rendering it into a concrete value is the
/// template engine's work.
#[derive(Debug, PartialEq, Eq)]
pub struct Template(pub String);

/// How a request authenticates itself.
#[derive(Clone, Debug, PartialEq, Eq)]
pub enum Authentication {
    /// User name and optional password
    Basic { username: Template, password: Option<Template> },
    /// Bearer token
    Bearer(Template),
}

/// Body of a recipe.
#[derive(Clone, Debug, PartialEq, Eq)]
pub enum RecipeBody {
    /// One template rendered into the whole body
    Raw(Template),
    /// URL-encoded form, one template per field
    FormUrlencoded(Vec<(String, Template)>),
    /// Multipart form, one template per field
    FormMultipart(Vec<(String, Template)>),
}

impl View for ProfileId {
    type V = Seq<char>;

    open spec fn view(&self) -> Seq<char> {
        self.0@
    }
}

impl View for RecipeId {
    type V = Seq<char>;

    open spec fn view(&self) -> Seq<char> {
        self.0@
    }
}

impl View for Template {
    type V = Seq<char>;

    open spec fn view(&self) -> Seq<char> {
        self.0@
    }
}

impl Clone for ProfileId {
    fn clone(&self) -> (copy: ProfileId)
        ensures
            copy == *self,
    {
        ProfileId(self.0.clone())
    }
}

impl Clone for RecipeId {
    fn clone(&self) -> (copy: RecipeId)
        ensures
            copy == *self,
    {
        RecipeId(self.0.clone())
    }
}

impl Clone for Template {
    fn clone(&self) -> (copy: Template)
        ensures
            copy == *self,
    {
        Template(self.0.clone())
    }
}

impl RecipeBody {
    /// Whether the body is a form, whose fields are overridden one by one.
    pub open spec fn is_form(&self) -> bool {
        !(self is Raw)
    }
}

} // verus!
