//! The registry of prompt templates: loading by path and rendering with a
//! message's variables.

use crate::error::{DiscliError, ErrorView};
use crate::prompt::loader::{
    cache_after_files, cache_after_load, load_outcome, load_view, read_view, resolved_path,
    template_views, templates_of_files, DirFile, PromptLoader, PromptTemplate, TemplateView,
};
use crate::prompt::variables::{rendered, substitute_variables, MessageVariables, VariablesView};
use vstd::prelude::*;

verus! {

/// What rendering gives for a template that loaded, or did not.
pub open spec fn render_outcome(loaded: Result<TemplateView, ErrorView>, vars: VariablesView) -> Result<
    Seq<char>,
    ErrorView,
> {
    match loaded {
        Ok(template) => Ok(rendered(template.content, vars)),
        Err(e) => Err(e),
    }
}

/// The views of a rendering's result.
pub open spec fn render_view(out: Result<String, DiscliError>) -> Result<Seq<char>, ErrorView> {
    match out {
        Ok(text) => Ok(text@),
        Err(e) => Err(e@),
    }
}

/// The prompt templates of one prompts directory.
pub struct PromptRegistry {
    loader: PromptLoader,
}

impl PromptRegistry {
    /// The directory that relative paths are resolved against.
    pub closed spec fn dir(&self) -> Seq<char> {
        self.loader.dir()
    }

    /// The templates held, by resolved path.
    pub closed spec fn cached(&self) -> Map<Seq<char>, TemplateView> {
        self.loader.cached()
    }

    /// A registry for `prompts_dir` that holds nothing yet.
    pub fn new(prompts_dir: String) -> (out: Self)
        ensures
            out.dir() == prompts_dir@,
            out.cached() == Map::<Seq<char>, TemplateView>::empty(),
    {
        PromptRegistry { loader: PromptLoader::new(prompts_dir) }
    }

    /// The file that has to be read before `path` can be used, or nothing
    /// where its template is held already.
    pub fn needs_read(&self, path: &str) -> (out: Option<String>)
        ensures
            out is None <==> self.cached().contains_key(resolved_path(self.dir(), path@)),
            out matches Some(file) ==> file@ == resolved_path(self.dir(), path@),
    {
        self.loader.needs_read(path)
    }

    /// The template that `path` names; `read` is what reading its file gave.
    pub fn get(&mut self, path: &str, read: Result<String, String>) -> (out: Result<
        PromptTemplate,
        DiscliError,
    >)
        ensures
            final(self).dir() == old(self).dir(),
            load_view(out) == load_outcome(old(self).cached(), old(self).dir(), path@, read_view(read)),
            final(self).cached() == cache_after_load(
                old(self).cached(),
                old(self).dir(),
                path@,
                read_view(read),
            ),
    {
        self.loader.load(path, read)
    }

    /// Every template of a listing of the prompts directory.
    pub fn all(&mut self, files: Vec<DirFile>) -> (out: Vec<PromptTemplate>)
        ensures
            final(self).dir() == old(self).dir(),
            template_views(out@) == templates_of_files(
                old(self).cached(),
                old(self).dir(),
                files@,
                files@.len(),
            ),
            final(self).cached() == cache_after_files(
                old(self).cached(),
                old(self).dir(),
                files@,
                files@.len(),
            ),
    {
        self.loader.load_all(files)
    }

    /// Loads the template that `path` names and fills in the variables of
    /// one message.
    pub fn render(&mut self, path: &str, read: Result<String, String>, vars: &MessageVariables) -> (out:
        Result<String, DiscliError>)
        ensures
            final(self).dir() == old(self).dir(),
            render_view(out) == render_outcome(
                load_outcome(old(self).cached(), old(self).dir(), path@, read_view(read)),
                vars@,
            ),
            final(self).cached() == cache_after_load(
                old(self).cached(),
                old(self).dir(),
                path@,
                read_view(read),
            ),
    {
        match self.get(path, read) {
            Ok(template) => Ok(substitute_variables(template.content.as_str(), vars)),
            Err(e) => Err(e),
        }
    }
}

} // verus!
