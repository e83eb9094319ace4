//! The build's error kinds. Every error aborts the pass that met it and
//! carries the offending path or identifier.
use vstd::prelude::*;

verus! {

/// Why a build step failed.
#[derive(Debug)]
pub enum BuildError {
    /// A path could not be read during traversal.
    Scan(String),
    /// A path is not representable as text, so no identifier derives from it.
    InvalidPath(String),
    /// A template's source did not compile: the identifier, then the
    /// compiler's report.
    Compile(String, String),
    /// A template referenced a context field the context lacks, under strict
    /// mode: the page's identifier, then the engine's report.
    UnknownField(String, String),
    /// A registered template failed to render for another reason: the
    /// identifier, then the engine's report.
    Render(String, String),
    /// No template is registered under this identifier.
    TemplateNotFound(String),
    /// A write, copy or directory creation failed at this path.
    Io(String),
    /// A file's modification time could not be read at this path.
    Metadata(String),
}

impl BuildError {
    /// The offending path or identifier the error carries.
    pub fn subject(&self) -> (res: &String)
        ensures
            res@ == self.spec_subject(),
    {
        match self {
            BuildError::Scan(p) => p,
            BuildError::InvalidPath(p) => p,
            BuildError::Compile(id, _) => id,
            BuildError::UnknownField(id, _) => id,
            BuildError::Render(id, _) => id,
            BuildError::TemplateNotFound(id) => id,
            BuildError::Io(p) => p,
            BuildError::Metadata(p) => p,
        }
    }

    /// The path or identifier each error kind carries.
    pub open spec fn spec_subject(&self) -> Seq<char> {
        match self {
            BuildError::Scan(p) => p@,
            BuildError::InvalidPath(p) => p@,
            BuildError::Compile(id, _) => id@,
            BuildError::UnknownField(id, _) => id@,
            BuildError::Render(id, _) => id@,
            BuildError::TemplateNotFound(id) => id@,
            BuildError::Io(p) => p@,
            BuildError::Metadata(p) => p@,
        }
    }
}

} // verus!
