//! The virtual-filesystem image synthesizer: magic-prefix expansion of path
//! mappings, and the discovery of built-in runtime files with an exclusion
//! rule set.
//!
//! A mapping is a `(guest, host)` pair.  A side that begins with the
//! `@ruby_root` component is expanded against the guest runtime root (guest
//! side) or the installed host runtime root (host side); other paths pass
//! through unchanged.  The flattened, expanded list is handed to the external
//! image generator, which defines collision behaviour; this module does not
//! deduplicate.

use vstd::prelude::*;
use crate::error::Error;
use crate::paths::join_path;
use crate::paths::spec_join_path;
use crate::paths::spec_strip_prefix;
use crate::paths::strip_prefix;

verus! {

/// One side of a mapping with the magic prefix expanded against `root`.
pub open spec fn spec_expand_side(p: Seq<char>, root: Seq<char>) -> Seq<char> {
    match spec_strip_prefix(p, "@ruby_root"@) {
        Some(rest) => spec_join_path(root, rest),
        None => p,
    }
}

/// A whole `(guest, host)` mapping expanded: the guest side against the guest
/// runtime root, the host side against the installed host runtime root.
pub open spec fn spec_expand_map_dir(
    map_dir: (Seq<char>, Seq<char>),
    host_ruby_root: Seq<char>,
    guest_ruby_root: Seq<char>,
) -> (Seq<char>, Seq<char>) {
    (spec_expand_side(map_dir.0, guest_ruby_root), spec_expand_side(map_dir.1, host_ruby_root))
}

fn expand_side(p: String, root: &str) -> (r: String)
    ensures
        r@ == spec_expand_side(p@, root@),
{
    match strip_prefix(p.as_str(), "@ruby_root") {
        Some(rest) => join_path(root, rest.as_str()),
        None => p,
    }
}

/// Expands the magic prefix on both sides of one mapping, as
/// [`spec_expand_map_dir`] describes.
pub fn expand_map_dir(map_dir: (String, String), host_ruby_root: &str, guest_ruby_root: &str) -> (r:
    (String, String))
    ensures
        (r.0@, r.1@) == spec_expand_map_dir((map_dir.0@, map_dir.1@), host_ruby_root@, guest_ruby_root@),
{
    let (guest, host) = map_dir;
    let guest = expand_side(guest, guest_ruby_root);
    let host = expand_side(host, host_ruby_root);
    (guest, host)
}

/// The inputs of one image synthesis: the installed runtime tree, the root
/// the runtime files live under inside the image, and the raw mappings.
pub struct MkfsInput {
    pub host_ruby_root: String,
    pub guest_ruby_root: String,
    pub map_paths: Vec<(String, String)>,
}

/// Every mapping of the input expanded, in order.
pub open spec fn spec_mkfs(input: MkfsInput) -> Seq<(Seq<char>, Seq<char>)> {
    input.map_paths.deep_view().map_values(
        |m: (Seq<char>, Seq<char>)| spec_expand_map_dir(m, input.host_ruby_root@, input.guest_ruby_root@),
    )
}

/// Produces the fully expanded, flattened mapping list that the external
/// image generator consumes, in the input's order.
pub fn mkfs(input: MkfsInput) -> (r: Vec<(String, String)>)
    ensures
        r.deep_view() == spec_mkfs(input),
{
    let ghost whole_input = input;
    let MkfsInput { host_ruby_root, guest_ruby_root, map_paths } = input;
    let mut r: Vec<(String, String)> = Vec::new();
    let mut i: usize = 0;
    while i < map_paths.len()
        invariant
            i <= map_paths.len(),
            map_paths.deep_view().len() == map_paths.len(),
            r.deep_view() == spec_mkfs(whole_input).take(i as int),
            whole_input.host_ruby_root == host_ruby_root,
            whole_input.guest_ruby_root == guest_ruby_root,
            whole_input.map_paths == map_paths,
        decreases map_paths.len() - i,
    {
        let pair = (map_paths[i].0.clone(), map_paths[i].1.clone());
        let expanded = expand_map_dir(pair, host_ruby_root.as_str(), guest_ruby_root.as_str());
        let ghost prev = r.deep_view();
        r.push(expanded);
        proof {
            let k = i as int;
            assert(map_paths.deep_view()[k] == (map_paths[k].0@, map_paths[k].1@));
            assert(prev.len() == k);
            assert(r.deep_view().len() == r@.len());
            assert(r@.len() == k + 1);
            assert forall|j: int| 0 <= j < k implies r.deep_view()[j] == prev[j] by {
                assert(r.deep_view()[j] == r@[j].deep_view());
            }
            assert(r.deep_view()[k] == (expanded.0@, expanded.1@));
            assert(spec_mkfs(whole_input).take(k + 1)[k] == spec_expand_map_dir(
                map_paths.deep_view()[k],
                host_ruby_root@,
                guest_ruby_root@,
            ));
            assert(r.deep_view() =~= spec_mkfs(whole_input).take(k + 1));
        }
        i = i + 1;
    }
    proof {
        assert(spec_mkfs(whole_input).take(map_paths.len() as int) =~= spec_mkfs(whole_input));
    }
    r
}

/// Puts the mapping list together in the order the downstream image
/// generator expects: built-in files first, caller-supplied mappings
/// appended, so that a later entry with the same guest path overrides an
/// earlier one there.
pub fn assemble_map_paths(builtin: Vec<(String, String)>, user: Vec<(String, String)>) -> (r: Vec<
    (String, String),
>)
    ensures
        r.deep_view() == builtin.deep_view() + user.deep_view(),
{
    let ghost builtin_view = builtin.deep_view();
    let mut r = builtin;
    let mut i: usize = 0;
    while i < user.len()
        invariant
            i <= user.len(),
            user.deep_view().len() == user.len(),
            r.deep_view() == builtin_view + user.deep_view().take(i as int),
        decreases user.len() - i,
    {
        let ghost prev = r.deep_view();
        r.push((user[i].0.clone(), user[i].1.clone()));
        proof {
            let k = i as int;
            assert forall|j: int| 0 <= j < prev.len() implies r.deep_view()[j] == prev[j] by {
                assert(r.deep_view()[j] == r@[j].deep_view());
            }
            assert(r.deep_view().len() == r@.len());
            assert(user.deep_view()[k] == (user[k].0@, user[k].1@));
            assert(r.deep_view()[prev.len() as int] == user.deep_view()[k]);
            assert(user.deep_view().take(k).len() == k);
            assert(user.deep_view().take(k + 1).len() == k + 1);
            assert(prev.len() == builtin_view.len() + k);
            let target = builtin_view + user.deep_view().take(k + 1);
            assert(r.deep_view().len() == target.len());
            assert forall|j: int| 0 <= j < target.len() implies r.deep_view()[j] == target[j] by {
                if j < prev.len() {
                    assert(r.deep_view()[j] == prev[j]);
                    assert(prev[j] == (builtin_view + user.deep_view().take(k))[j]);
                    if j < builtin_view.len() {
                        assert(target[j] == builtin_view[j]);
                    } else {
                        assert(target[j] == user.deep_view().take(k + 1)[j - builtin_view.len()]);
                        assert(user.deep_view().take(k + 1)[j - builtin_view.len()]
                            == user.deep_view()[j - builtin_view.len()]);
                        assert(prev[j] == user.deep_view().take(k)[j - builtin_view.len()]);
                    }
                } else {
                    assert(j == prev.len());
                    assert(r.deep_view()[j] == user.deep_view()[k]);
                    assert(target[j] == user.deep_view().take(k + 1)[k]);
                }
            }
            assert(r.deep_view() =~= target);
        }
        i = i + 1;
    }
    proof {
        assert(user.deep_view().take(user.len() as int) =~= user.deep_view());
    }
    r
}

/// Whether the pattern engine matches `text` against `pattern` somewhere;
/// both the regex syntax and the match relation are the engine's, and the
/// result is a function of the two texts alone.
pub uninterp spec fn regex_matches(pattern: Seq<char>, text: Seq<char>) -> bool;

/// Which pattern texts the engine accepts as well-formed.
pub uninterp spec fn regex_ok(pattern: Seq<char>) -> bool;

/// Relies on regex's `Regex::new` and `Regex::is_match`: whether a pattern
/// compiles, and whether it matches somewhere in a text, depend on the
/// pattern and the text alone.
#[verifier::external_body]
fn regex_is_match(pattern: &str, text: &str) -> (r: Option<bool>)
    ensures
        (r is Some) == regex_ok(pattern@),
        (r matches Some(b) ==> b == regex_matches(pattern@, text@)),
{
    match regex::Regex::new(pattern) {
        Ok(re) => Some(re.is_match(text)),
        Err(_) => None,
    }
}

/// The fixed exclusion rules: packaged-gem archives under a cache directory,
/// the static interpreter library, and the interpreter binary itself (which
/// must not be duplicated inside its own filesystem image).
pub open spec fn spec_excluded(path: Seq<char>) -> bool {
    ||| regex_matches(".*/cache/.*\\.gem$"@, path)
    ||| regex_matches(".*/libruby-static\\.a$"@, path)
    ||| regex_matches(".*/bin/ruby$"@, path)
}

/// Whether the engine accepts all three exclusion patterns.
pub open spec fn spec_exclude_patterns_ok() -> bool {
    &&& regex_ok(".*/cache/.*\\.gem$"@)
    &&& regex_ok(".*/libruby-static\\.a$"@)
    &&& regex_ok(".*/bin/ruby$"@)
}

/// Whether `path` falls under an exclusion rule, or the patterns were
/// refused.
fn is_excluded(path: &str) -> (r: Option<bool>)
    ensures
        (r is Some) == spec_exclude_patterns_ok(),
        (r matches Some(b) ==> b == spec_excluded(path@)),
{
    let gem = regex_is_match(".*/cache/.*\\.gem$", path);
    let libstatic = regex_is_match(".*/libruby-static\\.a$", path);
    let binruby = regex_is_match(".*/bin/ruby$", path);
    match (gem, libstatic, binruby) {
        (Some(a), Some(b), Some(c)) => Some(a || b || c),
        _ => None,
    }
}

/// Whether the engine accepts the three exclusion patterns, asked before any
/// file is tested, as one would compile the patterns up front.
fn exclude_patterns_ok() -> (r: bool)
    ensures
        r == spec_exclude_patterns_ok(),
{
    let gem = regex_is_match(".*/cache/.*\\.gem$", "");
    let libstatic = regex_is_match(".*/libruby-static\\.a$", "");
    let binruby = regex_is_match(".*/bin/ruby$", "");
    gem.is_some() && libstatic.is_some() && binruby.is_some()
}

/// The mapping of the built-in files `files` under `root`: every file not
/// excluded becomes `(@ruby_root/<relative path>, <file>)`, in the files'
/// order.
pub open spec fn spec_builtin_map_paths(root: Seq<char>, files: Seq<Seq<char>>) -> Seq<
    (Seq<char>, Seq<char>),
>
    decreases files.len(),
{
    if files.len() == 0 {
        Seq::empty()
    } else {
        let f = files.last();
        let head = spec_builtin_map_paths(root, files.drop_last());
        if spec_excluded(f) {
            head
        } else {
            head.push(
                (
                    spec_join_path("@ruby_root"@, spec_strip_prefix(f, root).unwrap_or(f)),
                    f,
                ),
            )
        }
    }
}

/// Collects the built-in runtime files to embed in the image.
///
/// `files` is every regular file found under the installed runtime root; the
/// surrounding binary enumerates the tree and hands the absolute paths in.
/// Files matched by an exclusion rule are dropped; every other file is mapped
/// to the magic prefix joined with its root-relative path.  Fails exactly
/// when the pattern engine refuses an exclusion pattern.
pub fn builtin_map_paths(installed_ruby_root: &str, files: &Vec<String>) -> (r: Result<
    Vec<(String, String)>,
    Error,
>)
    requires
        forall|j: int|
            0 <= j < files.deep_view().len() ==> spec_strip_prefix(
                files.deep_view()[j],
                installed_ruby_root@,
            ) is Some,
    ensures
        (r is Ok) == spec_exclude_patterns_ok(),
        (r matches Ok(v) ==> v.deep_view() == spec_builtin_map_paths(
            installed_ruby_root@,
            files.deep_view(),
        )),
        (r matches Err(e) ==> e == Error::PatternSyntax),
{
    if !exclude_patterns_ok() {
        return Err(Error::PatternSyntax);
    }
    let mut out: Vec<(String, String)> = Vec::new();
    let mut i: usize = 0;
    while i < files.len()
        invariant
            i <= files.len(),
            files.deep_view().len() == files.len(),
            forall|j: int|
                0 <= j < files.deep_view().len() ==> spec_strip_prefix(
                    files.deep_view()[j],
                    installed_ruby_root@,
                ) is Some,
            spec_exclude_patterns_ok(),
            out.deep_view() =~= spec_builtin_map_paths(
                installed_ruby_root@,
                files.deep_view().take(i as int),
            ),
        decreases files.len() - i,
    {
        let f = &files[i];
        proof {
            assert(files.deep_view()[i as int] == f@);
        }
        let excluded = match is_excluded(f.as_str()) {
            Some(b) => b,
            None => {
                return Err(Error::PatternSyntax);
            },
        };
        if !excluded {
            let rel = match strip_prefix(f.as_str(), installed_ruby_root) {
                Some(rel) => rel,
                None => {
                    proof {
                        assert(false);
                    }
                    String::new()
                },
            };
            let guest = join_path("@ruby_root", rel.as_str());
            out.push((guest, f.clone()));
        }
        proof {
            assert(files.deep_view().take(i + 1).drop_last() =~= files.deep_view().take(i as int));
            assert(files.deep_view().take(i + 1).last() == files.deep_view()[i as int]);
        }
        i = i + 1;
    }
    proof {
        assert(files.deep_view().take(files.len() as int) =~= files.deep_view());
    }
    Ok(out)
}

/// Exclusion filtering: a file matched by an exclusion rule never appears in
/// the built-in mapping list, on either side of a pair.
pub proof fn lemma_exclusion_filtering(root: Seq<char>, files: Seq<Seq<char>>, f: Seq<char>)
    requires
        spec_excluded(f),
    ensures
        forall|j: int|
            0 <= j < spec_builtin_map_paths(root, files).len() ==> spec_builtin_map_paths(
                root,
                files,
            )[j].1 != f,
    decreases files.len(),
{
    if files.len() > 0 {
        lemma_exclusion_filtering(root, files.drop_last(), f);
        let head = spec_builtin_map_paths(root, files.drop_last());
        let whole = spec_builtin_map_paths(root, files);
        if !spec_excluded(files.last()) {
            assert(files.last() != f);
            assert forall|j: int| 0 <= j < whole.len() implies whole[j].1 != f by {
                if j < head.len() {
                    assert(whole[j] == head[j]);
                } else {
                    assert(whole[j].1 == files.last());
                }
            }
        }
    }
}

/// Inclusion: a file under the root that no exclusion rule matches appears in
/// the built-in mapping list, with guest path equal to the magic prefix
/// joined to its root-relative path.
pub proof fn lemma_builtin_inclusion(root: Seq<char>, files: Seq<Seq<char>>, i: int)
    requires
        0 <= i < files.len(),
        !spec_excluded(files[i]),
    ensures
        spec_builtin_map_paths(root, files).contains(
            (
                spec_join_path("@ruby_root"@, spec_strip_prefix(files[i], root).unwrap_or(files[i])),
                files[i],
            ),
        ),
    decreases files.len(),
{
    let pair = (
        spec_join_path("@ruby_root"@, spec_strip_prefix(files[i], root).unwrap_or(files[i])),
        files[i],
    );
    if i == files.len() - 1 {
        assert(files.last() == files[i]);
        assert(spec_builtin_map_paths(root, files).last() == pair);
    } else {
        lemma_builtin_inclusion(root, files.drop_last(), i);
        let head = spec_builtin_map_paths(root, files.drop_last());
        let k = choose|k: int| 0 <= k < head.len() && head[k] == pair;
        assert(spec_builtin_map_paths(root, files)[k] == pair);
    }
}

} // verus!
