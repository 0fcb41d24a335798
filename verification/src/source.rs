//! Where interpreter source code comes from: a remote archive reference or a
//! local directory, the parsers for the textual descriptors of both, and the
//! decision how to turn a descriptor into a source directory.

use vstd::prelude::*;
use crate::error::Error;
use crate::github::spec_archive_link;
use crate::github::repo_archive_download_link;
use crate::strutil::str_eq;

verus! {

/// A descriptor of where source code comes from.
#[derive(Clone, Debug)]
pub enum BuildSource {
    GitHub { owner: String, repo: String, git_ref: String },
    Dir { path: String },
}

/// The mathematical value of a [`BuildSource`].
#[verifier::ext_equal]
pub enum BuildSourceView {
    GitHub { owner: Seq<char>, repo: Seq<char>, git_ref: Seq<char> },
    Dir { path: Seq<char> },
}

impl View for BuildSource {
    type V = BuildSourceView;

    open spec fn view(&self) -> BuildSourceView {
        match self {
            BuildSource::GitHub { owner, repo, git_ref } => BuildSourceView::GitHub {
                owner: owner@,
                repo: repo@,
                git_ref: git_ref@,
            },
            BuildSource::Dir { path } => BuildSourceView::Dir { path: path@ },
        }
    }
}

/// The first position at or after `i` where `c` occurs in `s`.
pub open spec fn spec_find_char(s: Seq<char>, c: char, i: int) -> Option<int>
    decreases s.len() - i when 0 <= i <= s.len()
{
    if i >= s.len() {
        None
    } else if s[i] == c {
        Some(i)
    } else {
        spec_find_char(s, c, i + 1)
    }
}

/// The first position at or after `i` where the two-character separator `::`
/// occurs in `s`.
pub open spec fn spec_find_dcolon(s: Seq<char>, i: int) -> Option<int>
    decreases s.len() - i when 0 <= i <= s.len()
{
    if i + 2 > s.len() {
        None
    } else if s[i] == ':' && s[i + 1] == ':' {
        Some(i)
    } else {
        spec_find_dcolon(s, i + 1)
    }
}

/// A mapping descriptor `GUEST::HOST` taken apart: defined exactly when the
/// text holds one `::` separator, scanning left to right.
pub open spec fn spec_parse_map_dirs(s: Seq<char>) -> Option<(Seq<char>, Seq<char>)> {
    match spec_find_dcolon(s, 0) {
        None => None,
        Some(i) => {
            let rest = s.subrange(i + 2, s.len() as int);
            if spec_find_dcolon(rest, 0) is Some {
                None
            } else {
                Some((s.subrange(0, i), rest))
            }
        },
    }
}

/// The kind tag of a build-source descriptor and everything after the first
/// `:`; the whole text and an empty remainder when no `:` occurs.
pub open spec fn spec_kind_and_rest(s: Seq<char>) -> (Seq<char>, Seq<char>) {
    match spec_find_char(s, ':', 0) {
        None => (s, Seq::empty()),
        Some(i) => (s.subrange(0, i), s.subrange(i + 1, s.len() as int)),
    }
}

/// A build-source descriptor taken apart.
///
/// `github:<owner>/<repo>@<ref>` requires exactly one `/` and, after it,
/// exactly one `@`; `path:<dir>` passes the remainder through; any other kind
/// tag is refused.
pub open spec fn spec_parse_build_src(s: Seq<char>) -> Result<BuildSourceView, Error> {
    let (kind, rest) = spec_kind_and_rest(s);
    if kind == "github"@ {
        match spec_find_char(rest, '/', 0) {
            None => Err(Error::GithubPatternSlash),
            Some(i) => {
                let owner = rest.subrange(0, i);
                let tail = rest.subrange(i + 1, rest.len() as int);
                if spec_find_char(tail, '/', 0) is Some {
                    Err(Error::GithubPatternSlash)
                } else {
                    match spec_find_char(tail, '@', 0) {
                        None => Err(Error::GithubPatternAt),
                        Some(j) => {
                            let repo = tail.subrange(0, j);
                            let git_ref = tail.subrange(j + 1, tail.len() as int);
                            if spec_find_char(git_ref, '@', 0) is Some {
                                Err(Error::GithubPatternAt)
                            } else {
                                Ok(BuildSourceView::GitHub { owner, repo, git_ref })
                            }
                        },
                    }
                }
            },
        }
    } else if kind == "path"@ {
        Ok(BuildSourceView::Dir { path: rest })
    } else {
        Err(Error::UnknownSourceKind)
    }
}

/// Finds the first occurrence of `c` in `s`.
fn find_char(s: &str, c: char) -> (r: Option<usize>)
    ensures
        match r {
            Some(i) => i < s@.len() && spec_find_char(s@, c, 0) == Some(i as int),
            None => spec_find_char(s@, c, 0) is None,
        },
{
    let len = s.unicode_len();
    let mut i: usize = 0;
    while i < len
        invariant
            len == s@.len(),
            i <= len,
            spec_find_char(s@, c, 0) == spec_find_char(s@, c, i as int),
        decreases len - i,
    {
        if s.get_char(i) == c {
            return Some(i);
        }
        i = i + 1;
    }
    None
}

/// Finds the first occurrence of `::` in `s`.
fn find_dcolon(s: &str) -> (r: Option<usize>)
    ensures
        match r {
            Some(i) => i as int + 2 <= s@.len() && spec_find_dcolon(s@, 0) == Some(i as int),
            None => spec_find_dcolon(s@, 0) is None,
        },
{
    let len = s.unicode_len();
    if len < 2 {
        return None;
    }
    let mut i: usize = 0;
    while i < len - 1
        invariant
            len == s@.len(),
            2 <= len,
            i + 1 <= len,
            spec_find_dcolon(s@, 0) == spec_find_dcolon(s@, i as int),
        decreases len - i,
    {
        if s.get_char(i) == ':' && s.get_char(i + 1) == ':' {
            return Some(i);
        }
        i = i + 1;
    }
    None
}

/// Splits a `GUEST_DIR::HOST_DIR` mapping descriptor at its one `::`
/// separator; any other shape is refused.
pub fn parse_map_dirs(s: &str) -> (r: Result<(String, String), Error>)
    ensures
        match r {
            Ok(pair) => spec_parse_map_dirs(s@) == Some((pair.0@, pair.1@)),
            Err(e) => spec_parse_map_dirs(s@) is None && e == Error::MapDirSyntax,
        },
{
    let len = s.unicode_len();
    match find_dcolon(s) {
        None => Err(Error::MapDirSyntax),
        Some(i) => {
            let guest = s.substring_char(0, i);
            let host = s.substring_char(i + 2, len);
            match find_dcolon(host) {
                Some(_) => Err(Error::MapDirSyntax),
                None => Ok((String::from_str(guest), String::from_str(host))),
            }
        },
    }
}

/// Parses a build-source descriptor, as [`spec_parse_build_src`] describes.
pub fn parse_build_src(s: &str) -> (r: Result<BuildSource, Error>)
    ensures
        match r {
            Ok(src) => spec_parse_build_src(s@) == Ok::<BuildSourceView, Error>(src@),
            Err(e) => spec_parse_build_src(s@) == Err::<BuildSourceView, Error>(e),
        },
{
    let len = s.unicode_len();
    let (kind, rest) = match find_char(s, ':') {
        None => (String::from_str(s), String::new()),
        Some(i) => (
            String::from_str(s.substring_char(0, i)),
            String::from_str(s.substring_char(i + 1, len)),
        ),
    };
    if str_eq(kind.as_str(), "github") {
        let rest_len = rest.as_str().unicode_len();
        match find_char(rest.as_str(), '/') {
            None => Err(Error::GithubPatternSlash),
            Some(i) => {
                let owner = String::from_str(rest.as_str().substring_char(0, i));
                let tail = String::from_str(rest.as_str().substring_char(i + 1, rest_len));
                if find_char(tail.as_str(), '/').is_some() {
                    return Err(Error::GithubPatternSlash);
                }
                let tail_len = tail.as_str().unicode_len();
                match find_char(tail.as_str(), '@') {
                    None => Err(Error::GithubPatternAt),
                    Some(j) => {
                        let repo = String::from_str(tail.as_str().substring_char(0, j));
                        let git_ref = String::from_str(
                            tail.as_str().substring_char(j + 1, tail_len),
                        );
                        if find_char(git_ref.as_str(), '@').is_some() {
                            return Err(Error::GithubPatternAt);
                        }
                        Ok(BuildSource::GitHub { owner, repo, git_ref })
                    },
                }
            },
        }
    } else if str_eq(kind.as_str(), "path") {
        Ok(BuildSource::Dir { path: rest })
    } else {
        Err(Error::UnknownSourceKind)
    }
}

/// How the surrounding binary is to obtain a source directory.
#[derive(Clone, Debug)]
pub enum SourceAction {
    /// Use this directory in place; nothing is fetched or copied.
    UseDir { dir: String },
    /// Fetch the archive behind `url` and extract it into `dest`, stripping
    /// the archive's top-level directory.
    Fetch { url: String, dest: String },
}

/// Decides how a build source becomes a source directory.
///
/// A local directory is used in place, unconditionally.  A remote source is
/// fetched into `build_dir` once: a `build_dir` that already exists is taken
/// as the completed result of an earlier fetch.
pub fn install_build_src(source: &BuildSource, build_dir: &str, build_dir_exists: bool) -> (r:
    SourceAction)
    ensures
        (source@ matches BuildSourceView::Dir { path } ==> r matches SourceAction::UseDir {
            dir,
        } && dir@ == path),
        (source@ matches BuildSourceView::GitHub { owner, repo, git_ref } ==> (if build_dir_exists {
            r matches SourceAction::UseDir { dir } && dir@ == build_dir@
        } else {
            r matches SourceAction::Fetch { url, dest } && url@ == spec_archive_link(
                owner,
                repo,
                git_ref,
            ) && dest@ == build_dir@
        })),
{
    match source {
        BuildSource::Dir { path } => SourceAction::UseDir { dir: path.clone() },
        BuildSource::GitHub { owner, repo, git_ref } => {
            if build_dir_exists {
                SourceAction::UseDir { dir: String::from_str(build_dir) }
            } else {
                SourceAction::Fetch {
                    url: repo_archive_download_link(owner.as_str(), repo.as_str(), git_ref.as_str()),
                    dest: String::from_str(build_dir),
                }
            }
        },
    }
}

} // verus!
