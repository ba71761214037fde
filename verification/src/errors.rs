//! The fatal error categories of a run.  Front-matter parse failures
//! are deliberately absent: they degrade to "no front matter".

use vstd::prelude::*;

verus! {

/// Why the run must abort.
#[derive(Clone, Copy, Debug, PartialEq, Eq, Structural)]
pub enum PipelineError {
    /// A file name carries no extension, so the entry cannot be
    /// classified.
    NoExtension,
    /// A path component is not a plain name, so the entry would
    /// escape the input root.
    BadComponent,
    /// An article body is not valid UTF-8.
    NotUtf8,
    /// The template service failed on an article's context.
    Render,
}

impl PipelineError {
    /// A short description for the abort message.
    pub fn describe(&self) -> (r: &'static str)
        ensures
            *self is NoExtension ==> r@ == "file has no extension"@,
            *self is BadComponent ==> r@ == "path component is not a plain name"@,
            *self is NotUtf8 ==> r@ == "article body is not valid UTF-8"@,
            *self is Render ==> r@ == "failed to render template"@,
    {
        match self {
            PipelineError::NoExtension => "file has no extension",
            PipelineError::BadComponent => "path component is not a plain name",
            PipelineError::NotUtf8 => "article body is not valid UTF-8",
            PipelineError::Render => "failed to render template",
        }
    }
}

} // verus!
