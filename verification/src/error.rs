//! The pipeline's error taxonomy: malformed user-supplied descriptors and
//! rejected patterns.  Failures of external processes are reported through
//! the pipeline state machine instead (see `pipeline`).

use vstd::prelude::*;

verus! {

/// Why a descriptor or a pattern was rejected.
#[derive(Clone, Copy, Debug, PartialEq, Eq, Structural)]
pub enum Error {
    /// A path mapping did not contain exactly one `::` separator.
    MapDirSyntax,
    /// A build-source descriptor named a source kind this pipeline does not
    /// know.
    UnknownSourceKind,
    /// A GitHub build-source descriptor did not contain exactly one `/`.
    GithubPatternSlash,
    /// A GitHub build-source descriptor did not contain exactly one `@` after
    /// the `/`.
    GithubPatternAt,
    /// An exclusion pattern was refused by the pattern engine.
    PatternSyntax,
    /// An install prefix that should have been absolute was not.
    PrefixNotAbsolute,
}

impl Error {
    /// A short description of the failure, for the surrounding binary to
    /// print.
    pub fn message(&self) -> (r: &'static str)
        ensures
            *self is MapDirSyntax ==> r@ == "must contain exactly one double colon ('::')"@,
            *self is UnknownSourceKind ==> r@ == "unknown build source kind"@,
            *self is GithubPatternSlash ==> r@ == "invalid github pattern: only one / should appear"@,
            *self is GithubPatternAt ==> r@ == "invalid github pattern: only one @ should appear"@,
            *self is PatternSyntax ==> r@ == "invalid exclusion pattern"@,
            *self is PrefixNotAbsolute ==> r@ == "install prefix must be absolute"@,
    {
        match self {
            Error::MapDirSyntax => "must contain exactly one double colon ('::')",
            Error::UnknownSourceKind => "unknown build source kind",
            Error::GithubPatternSlash => "invalid github pattern: only one / should appear",
            Error::GithubPatternAt => "invalid github pattern: only one @ should appear",
            Error::PatternSyntax => "invalid exclusion pattern",
            Error::PrefixNotAbsolute => "install prefix must be absolute",
        }
    }
}

} // verus!
