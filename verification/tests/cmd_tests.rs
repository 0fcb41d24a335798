use rbwasm::cmd::asyncify_executable;
use rbwasm::cmd::autogen_command;
use rbwasm::cmd::run_build_hook;
use rbwasm::cmd::tar_extract_command;
use rbwasm::cmd::Toolchain;
use rbwasm::error::Error;
use rbwasm::link::link_executable;
use rbwasm::link::LinkerInput;
use rbwasm::pipeline::default_enabled_extensions;
use rbwasm::pipeline::BuildResult;
use rbwasm::strutil::join_with;
use rbwasm::strutil::str_eq;
use rbwasm::strutil::u64_to_dec;
use rbwasm::toolchain::install_build_toolchain;
use rbwasm::toolchain::HostOs;
use rbwasm::workspace::prepend_search_path;
use rbwasm::workspace::shadow_script;
use rbwasm::workspace::Workspace;

fn toolchain() -> Toolchain {
    Toolchain {
        wasm_opt: "/opt/bin/wasm-opt".to_string(),
        wasi_sdk: "/sdk".to_string(),
        rb_wasm_support: "/support".to_string(),
    }
}

#[test]
fn asyncify_arguments() {
    let cmd = asyncify_executable(&toolchain(), false, "ruby.wasm", "ruby.wasm");
    assert_eq!(cmd.program, "/opt/bin/wasm-opt");
    assert_eq!(
        cmd.args,
        vec![
            "ruby.wasm".to_string(),
            "--asyncify".to_string(),
            "-O".to_string(),
            "--pass-arg=asyncify-ignore-imports".to_string(),
            "-o".to_string(),
            "ruby.wasm".to_string(),
        ]
    );
    assert!(cmd.cwd.is_none());
    assert!(cmd.env.is_empty());
}

#[test]
fn asyncify_keeps_debug_info_on_request() {
    let cmd = asyncify_executable(&toolchain(), true, "in.wasm", "out.wasm");
    assert_eq!(
        cmd.args,
        vec![
            "in.wasm".to_string(),
            "--asyncify".to_string(),
            "-O".to_string(),
            "-g".to_string(),
            "--pass-arg=asyncify-ignore-imports".to_string(),
            "-o".to_string(),
            "out.wasm".to_string(),
        ]
    );
}

#[test]
fn link_arguments() {
    let cruby = BuildResult {
        install_dir: "/w/cache/ruby-abc".to_string(),
        cached: true,
        prefix: "/embd-root/ruby".to_string(),
    };
    let input = LinkerInput {
        stack_size: 16777216,
        raw_objects: vec![("fs.o".to_string(), vec![1, 2, 3])],
        extra_args: vec!["--export-dynamic".to_string()],
    };
    let objects = vec!["/tmp/fs.o".to_string()];
    let cmd = link_executable(&toolchain(), &cruby, &input, "ruby.wasm", &objects, "/tmp/libwasi_vfs.a")
        .expect("absolute prefix");
    assert_eq!(cmd.program, "/sdk/bin/wasm-ld");
    assert_eq!(
        cmd.args,
        vec![
            "/w/cache/ruby-abc/embd-root/ruby/bin/ruby".to_string(),
            "--stack-first".to_string(),
            "-z".to_string(),
            "stack-size=16777216".to_string(),
            "-o".to_string(),
            "ruby.wasm".to_string(),
            "--export-dynamic".to_string(),
            "/tmp/fs.o".to_string(),
            "/tmp/libwasi_vfs.a".to_string(),
        ]
    );
}

#[test]
fn link_refuses_relative_prefix() {
    let cruby = BuildResult {
        install_dir: "/w/cache/ruby-abc".to_string(),
        cached: false,
        prefix: "embd-root/ruby".to_string(),
    };
    let input = LinkerInput { stack_size: 1, raw_objects: vec![], extra_args: vec![] };
    let err = link_executable(&toolchain(), &cruby, &input, "out", &vec![], "lib.a").unwrap_err();
    assert_eq!(err, Error::PrefixNotAbsolute);
    assert_eq!(err.message(), "install prefix must be absolute");
}

#[test]
fn tar_extraction_strips_top_level_directory() {
    let cmd = tar_extract_command("/w/downloads/wasi-sdk-14.0");
    assert_eq!(cmd.program, "tar");
    assert_eq!(
        cmd.args,
        vec!["xz".to_string(), "--strip-components".to_string(), "1".to_string()]
    );
    assert_eq!(cmd.cwd.as_deref(), Some("/w/downloads/wasi-sdk-14.0"));
}

#[test]
fn build_hook_receives_ruby_root() {
    let cmd = run_build_hook("./hook.sh", "/w/cache/ruby-abc/embd-root/ruby");
    assert_eq!(cmd.program, "./hook.sh");
    assert!(cmd.args.is_empty());
    assert_eq!(
        cmd.env,
        vec![("RUBY_ROOT".to_string(), "/w/cache/ruby-abc/embd-root/ruby".to_string())]
    );
}

#[test]
fn autogen_runs_from_the_source_tree() {
    let cmd = autogen_command("/src/ruby");
    assert_eq!(cmd.program, "/src/ruby/autogen.sh");
    assert!(cmd.args.is_empty());
    assert!(cmd.cwd.is_none());
}

#[test]
fn toolchain_fetch_plan() {
    let workspace = Workspace::create(".rbwasm".to_string(), false);
    let (sdk, support) = install_build_toolchain(&workspace, HostOs::Linux, false, false);
    let sdk = sdk.expect("sdk missing, so it is fetched");
    assert_eq!(
        sdk.url,
        "https://github.com/WebAssembly/wasi-sdk/releases/download/wasi-sdk-14/wasi-sdk-14.0-linux.tar.gz"
    );
    assert_eq!(sdk.dest, ".rbwasm/downloads/wasi-sdk-14.0");
    let support = support.expect("support missing, so it is fetched");
    assert_eq!(
        support.url,
        "https://github.com/kateinoigakukun/rb-wasm-support/releases/download/0.4.0/rb-wasm-support-wasm32-unknown-wasi.tar.gz"
    );
    assert_eq!(support.dest, ".rbwasm/downloads/rb-wasm-support-0.4.0");

    let (sdk, support) = install_build_toolchain(&workspace, HostOs::MacOs, true, true);
    assert!(sdk.is_none());
    assert!(support.is_none());
}

#[test]
fn shadow_script_delegates_to_true() {
    assert_eq!(shadow_script("/usr/bin/true"), "#!/usr/bin/true\n");
}

#[test]
fn search_path_prepending() {
    let current = "/usr/local/bin:/usr/bin".to_string();
    assert_eq!(
        prepend_search_path("/stub", Some(&current)),
        "/stub:/usr/local/bin:/usr/bin"
    );
    assert_eq!(prepend_search_path("/stub", None), "/stub");
}

#[test]
fn decimal_formatting() {
    assert_eq!(u64_to_dec(0), "0");
    assert_eq!(u64_to_dec(9), "9");
    assert_eq!(u64_to_dec(10), "10");
    assert_eq!(u64_to_dec(16777216), "16777216");
    assert_eq!(u64_to_dec(u64::MAX), "18446744073709551615");
}

#[test]
fn joining_with_separators() {
    assert_eq!(join_with(&vec![], ","), "");
    assert_eq!(join_with(&vec!["a".to_string()], ","), "a");
    assert_eq!(
        join_with(&vec!["a".to_string(), "b".to_string(), "c".to_string()], ", "),
        "a, b, c"
    );
}

#[test]
fn string_equality() {
    assert!(str_eq("", ""));
    assert!(str_eq("abc", "abc"));
    assert!(!str_eq("abc", "abd"));
    assert!(!str_eq("abc", "abcd"));
}

#[test]
fn default_extension_selection() {
    let exts = default_enabled_extensions();
    assert_eq!(exts.len(), 29);
    assert_eq!(exts[0], "bigdecimal");
    assert_eq!(exts[28], "monitor");
    assert!(exts.iter().any(|e| e == "json"));
    assert!(exts.iter().any(|e| e == "rbconfig/sizeof"));
}
