//! The planner's error taxonomy. Every fatal condition carries enough
//! context for the caller to report it; none is retried.

use vstd::prelude::*;

verus! {

/// Why a build plan could not be produced, or why an audit failed.
#[derive(Debug)]
pub enum BuildError {
    /// A required environment input is absent; the payload names it.
    MissingEnvInput(String),
    /// A source file has an extension with no defined compile rule; the
    /// payload holds the extension, empty when the file has none.
    UnsupportedExtension(String),
    /// A compilable or header file on disk is not declared in the static
    /// manifest; the payload holds its path.
    UntrackedFile(String),
}

impl BuildError {
    /// A short description of the error, for reporting.
    pub fn describe(&self) -> (msg: String)
        ensures
            match self {
                BuildError::MissingEnvInput(name) => msg@ == "missing required environment input: "@
                    + name@,
                BuildError::UnsupportedExtension(ext) => msg@ == "unsupported file extension: "@
                    + ext@,
                BuildError::UntrackedFile(path) => msg@ == "file is not tracked in the manifest: "@
                    + path@,
            },
    {
        match self {
            BuildError::MissingEnvInput(name) => String::from_str(
                "missing required environment input: ",
            ).concat(name.as_str()),
            BuildError::UnsupportedExtension(ext) => String::from_str(
                "unsupported file extension: ",
            ).concat(ext.as_str()),
            BuildError::UntrackedFile(path) => String::from_str(
                "file is not tracked in the manifest: ",
            ).concat(path.as_str()),
        }
    }
}

} // verus!
