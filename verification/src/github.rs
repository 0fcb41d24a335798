//! Download links for source archives hosted on GitHub.

use vstd::prelude::*;

verus! {

/// The character sequence of the archive URL for a repository revision:
/// `https://api.github.com/repos/<owner>/<repo>/tarball/<ref>`.
pub open spec fn spec_archive_link(
    owner: Seq<char>,
    repo: Seq<char>,
    git_ref: Seq<char>,
) -> Seq<char> {
    "https://api.github.com/repos/"@ + owner + "/"@ + repo + "/tarball/"@ + git_ref
}

/// The URL under which GitHub serves the tarball of one revision of a
/// repository.
pub fn repo_archive_download_link(owner: &str, repo: &str, git_ref: &str) -> (link: String)
    ensures
        link@ == spec_archive_link(owner@, repo@, git_ref@),
{
    let mut link = String::from_str("https://api.github.com/repos/");
    link.append(owner);
    link.append("/");
    link.append(repo);
    link.append("/tarball/");
    link.append(git_ref);
    link
}

} // verus!
