use rbwasm::error::Error;
use rbwasm::github::repo_archive_download_link;
use rbwasm::source::install_build_src;
use rbwasm::source::parse_build_src;
use rbwasm::source::parse_map_dirs;
use rbwasm::source::BuildSource;
use rbwasm::source::SourceAction;

#[test]
fn parse_build_source_github() {
    let src = parse_build_src("github:rust-lang/rust@main").expect("parse failed");
    match src {
        BuildSource::GitHub { owner, repo, git_ref } => {
            assert_eq!(owner, "rust-lang");
            assert_eq!(repo, "rust");
            assert_eq!(git_ref, "main");
        }
        other => {
            panic!("unexpected build source: {:?}", other);
        }
    }
}

#[test]
fn parse_build_source_path() {
    let src = parse_build_src("path:../rust-lang/rust").expect("parse failed");
    match src {
        BuildSource::Dir { path } => {
            assert_eq!(path, "../rust-lang/rust");
        }
        other => {
            panic!("unexpected build source: {:?}", other);
        }
    }
}

#[test]
fn parse_build_source_path_keeps_later_colons() {
    let src = parse_build_src("path:/a:b/c").expect("parse failed");
    match src {
        BuildSource::Dir { path } => assert_eq!(path, "/a:b/c"),
        other => panic!("unexpected build source: {:?}", other),
    }
}

#[test]
fn parse_build_source_unknown_kind() {
    let err = parse_build_src("svn:something").unwrap_err();
    assert_eq!(err, Error::UnknownSourceKind);
    assert_eq!(err.message(), "unknown build source kind");
}

#[test]
fn parse_build_source_github_needs_one_slash() {
    assert_eq!(
        parse_build_src("github:rust-lang").unwrap_err(),
        Error::GithubPatternSlash
    );
    assert_eq!(
        parse_build_src("github:a/b/c@main").unwrap_err(),
        Error::GithubPatternSlash
    );
    assert_eq!(
        Error::GithubPatternSlash.message(),
        "invalid github pattern: only one / should appear"
    );
}

#[test]
fn parse_build_source_github_needs_one_at() {
    assert_eq!(
        parse_build_src("github:rust-lang/rust").unwrap_err(),
        Error::GithubPatternAt
    );
    assert_eq!(
        parse_build_src("github:a/b@c@d").unwrap_err(),
        Error::GithubPatternAt
    );
    assert_eq!(
        Error::GithubPatternAt.message(),
        "invalid github pattern: only one @ should appear"
    );
}

#[test]
fn parse_map_dirs_splits_at_double_colon() {
    let (guest, host) = parse_map_dirs("/gems::/home/me/gems").expect("parse failed");
    assert_eq!(guest, "/gems");
    assert_eq!(host, "/home/me/gems");
}

#[test]
fn parse_map_dirs_rejects_missing_separator() {
    let err = parse_map_dirs("/gems:/home/me/gems").unwrap_err();
    assert_eq!(err, Error::MapDirSyntax);
    assert_eq!(err.message(), "must contain exactly one double colon ('::')");
}

#[test]
fn parse_map_dirs_rejects_two_separators() {
    assert_eq!(parse_map_dirs("a::b::c").unwrap_err(), Error::MapDirSyntax);
}

#[test]
fn local_source_passthrough() {
    let source = BuildSource::Dir { path: "../my/ruby".to_string() };
    match install_build_src(&source, "/w/build/ruby-abc", false) {
        SourceAction::UseDir { dir } => assert_eq!(dir, "../my/ruby"),
        other => panic!("unexpected action: {:?}", other),
    }
    // The decision does not change when the scratch directory exists.
    match install_build_src(&source, "/w/build/ruby-abc", true) {
        SourceAction::UseDir { dir } => assert_eq!(dir, "../my/ruby"),
        other => panic!("unexpected action: {:?}", other),
    }
}

#[test]
fn remote_source_fetched_once() {
    let source = BuildSource::GitHub {
        owner: "kateinoigakukun".to_string(),
        repo: "ruby".to_string(),
        git_ref: "v3_0_2".to_string(),
    };
    match install_build_src(&source, "/w/build/ruby-abc", false) {
        SourceAction::Fetch { url, dest } => {
            assert_eq!(url, "https://api.github.com/repos/kateinoigakukun/ruby/tarball/v3_0_2");
            assert_eq!(dest, "/w/build/ruby-abc");
        }
        other => panic!("unexpected action: {:?}", other),
    }
    match install_build_src(&source, "/w/build/ruby-abc", true) {
        SourceAction::UseDir { dir } => assert_eq!(dir, "/w/build/ruby-abc"),
        other => panic!("unexpected action: {:?}", other),
    }
}

#[test]
fn archive_download_link() {
    assert_eq!(
        repo_archive_download_link("rust-lang", "rust", "main"),
        "https://api.github.com/repos/rust-lang/rust/tarball/main"
    );
}
