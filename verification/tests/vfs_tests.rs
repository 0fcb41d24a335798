use rbwasm::error::Error;
use rbwasm::vfs::assemble_map_paths;
use rbwasm::vfs::builtin_map_paths;
use rbwasm::vfs::expand_map_dir;
use rbwasm::vfs::mkfs;
use rbwasm::vfs::MkfsInput;

#[test]
fn test_expand_map_dir() {
    let (guest, host) = expand_map_dir(
        ("/gems".to_string(), "@ruby_root/lib/gems".to_string()),
        "/install/prefix",
        "/prefix",
    );
    assert_eq!(host, "/install/prefix/lib/gems");
    assert_eq!(guest, "/gems");
}

#[test]
fn expand_map_dir_guest_side() {
    let (guest, host) = expand_map_dir(
        ("@ruby_root/lib".to_string(), "/data".to_string()),
        "/install/prefix",
        "/prefix",
    );
    assert_eq!(guest, "/prefix/lib");
    assert_eq!(host, "/data");
}

#[test]
fn expand_map_dir_bare_magic_prefix() {
    let (guest, host) = expand_map_dir(
        ("@ruby_root".to_string(), "@ruby_root".to_string()),
        "/install/prefix",
        "/prefix",
    );
    assert_eq!(guest, "/prefix");
    assert_eq!(host, "/install/prefix");
}

#[test]
fn expand_map_dir_no_prefix_passthrough() {
    let (guest, host) = expand_map_dir(
        ("/a".to_string(), "/b".to_string()),
        "/install/prefix",
        "/prefix",
    );
    assert_eq!(guest, "/a");
    assert_eq!(host, "/b");
}

#[test]
fn expand_map_dir_prefix_must_be_a_component() {
    // "@ruby_rootx" does not begin with the "@ruby_root" component.
    let (guest, host) = expand_map_dir(
        ("@ruby_rootx".to_string(), "@ruby_rootx/y".to_string()),
        "/install/prefix",
        "/prefix",
    );
    assert_eq!(guest, "@ruby_rootx");
    assert_eq!(host, "@ruby_rootx/y");
}

#[test]
fn mkfs_expands_every_mapping_in_order() {
    let input = MkfsInput {
        host_ruby_root: "/install/prefix".to_string(),
        guest_ruby_root: "/prefix".to_string(),
        map_paths: vec![
            ("@ruby_root/lib".to_string(), "@ruby_root/lib".to_string()),
            ("/gems".to_string(), "@ruby_root/lib/gems".to_string()),
            ("/data".to_string(), "/srv/data".to_string()),
        ],
    };
    let spec = mkfs(input);
    assert_eq!(spec.len(), 3);
    assert_eq!(spec[0].0, "/prefix/lib");
    assert_eq!(spec[0].1, "/install/prefix/lib");
    assert_eq!(spec[1].0, "/gems");
    assert_eq!(spec[1].1, "/install/prefix/lib/gems");
    assert_eq!(spec[2].0, "/data");
    assert_eq!(spec[2].1, "/srv/data");
}

#[test]
fn builtin_map_paths_excludes_cached_gems() {
    let root = "/install/prefix";
    let files = vec![
        "/install/prefix/lib/ruby/gems/cache/rake-13.0.3.gem".to_string(),
        "/install/prefix/lib/ruby/gems/specifications/rake-13.0.3.gemspec".to_string(),
    ];
    let mappings = builtin_map_paths(root, &files).expect("patterns must compile");
    assert_eq!(mappings.len(), 1);
    assert_eq!(
        mappings[0].0,
        "@ruby_root/lib/ruby/gems/specifications/rake-13.0.3.gemspec"
    );
    assert_eq!(
        mappings[0].1,
        "/install/prefix/lib/ruby/gems/specifications/rake-13.0.3.gemspec"
    );
}

#[test]
fn builtin_map_paths_excludes_static_lib_and_binary() {
    let root = "/r";
    let files = vec![
        "/r/lib/libruby-static.a".to_string(),
        "/r/bin/ruby".to_string(),
        "/r/bin/irb".to_string(),
        "/r/lib/ruby/3.0.0/set.rb".to_string(),
    ];
    let mappings = builtin_map_paths(root, &files).expect("patterns must compile");
    let hosts: Vec<&str> = mappings.iter().map(|m| m.1.as_str()).collect();
    assert_eq!(hosts, vec!["/r/bin/irb", "/r/lib/ruby/3.0.0/set.rb"]);
    let guests: Vec<&str> = mappings.iter().map(|m| m.0.as_str()).collect();
    assert_eq!(guests, vec!["@ruby_root/bin/irb", "@ruby_root/lib/ruby/3.0.0/set.rb"]);
}

#[test]
fn builtin_map_paths_empty_tree() {
    let mappings = builtin_map_paths("/r", &vec![]).expect("patterns must compile");
    assert!(mappings.is_empty());
}

#[test]
fn caller_mappings_follow_builtins() {
    let builtin = vec![("@ruby_root/a".to_string(), "/r/a".to_string())];
    let user = vec![
        ("/gems".to_string(), "/home/me/gems".to_string()),
        ("@ruby_root/a".to_string(), "/override/a".to_string()),
    ];
    let all = assemble_map_paths(builtin, user);
    assert_eq!(
        all,
        vec![
            ("@ruby_root/a".to_string(), "/r/a".to_string()),
            ("/gems".to_string(), "/home/me/gems".to_string()),
            ("@ruby_root/a".to_string(), "/override/a".to_string()),
        ]
    );
}

#[test]
fn pattern_syntax_error_message() {
    assert_eq!(Error::PatternSyntax.message(), "invalid exclusion pattern");
}
