use rbwasm::cache::CRubyBuildInput;
use rbwasm::cmd::Toolchain;
use rbwasm::pipeline::build_cruby;
use rbwasm::pipeline::BuildAction;
use rbwasm::pipeline::BuildEvent;
use rbwasm::pipeline::BuildResult;
use rbwasm::pipeline::Stage;
use rbwasm::source::BuildSource;
use rbwasm::workspace::Workspace;

fn fake_toolchain() -> Toolchain {
    Toolchain {
        wasm_opt: "fake-wasm-opt".to_string(),
        wasi_sdk: "fake-wasi-sdk".to_string(),
        rb_wasm_support: "fake-rb-wasm-support".to_string(),
    }
}

fn fake_input() -> CRubyBuildInput {
    CRubyBuildInput {
        source: BuildSource::Dir { path: "fakeruby".to_string() },
        asyncify_stack_size: 0,
        extra_cc_args: vec![],
        enabled_extentions: vec![],
    }
}

/// Drives one build, answering every probe from `cache`, resolving the
/// source to `fakeruby`, and letting every command succeed.  Returns the
/// result and how many commands were run.
fn drive(cache: &mut Vec<String>) -> (BuildResult, usize) {
    let workspace = Workspace::create(".rbwasm".to_string(), true);
    let (mut machine, mut action) = build_cruby(&workspace, fake_toolchain(), fake_input(), 8, None);
    let mut runs: usize = 0;
    loop {
        match action {
            BuildAction::Probe { path } => {
                let present = cache.iter().any(|p| p == &path);
                action = machine.step(BuildEvent::Probed { present });
            }
            BuildAction::ResolveSource { build_dir: _ } => {
                action = machine.step(BuildEvent::SourceReady { dir: "fakeruby".to_string() });
            }
            BuildAction::PrepareShadow { command } => {
                assert_eq!(command, "wasm-opt");
                action = machine.step(BuildEvent::ShadowReady {
                    search_path: "/stub-bin:/usr/bin".to_string(),
                });
            }
            BuildAction::Run { cmd: _ } => {
                runs += 1;
                action = machine.step(BuildEvent::Exited { success: true });
            }
            BuildAction::Finished { result } => {
                if !result.cached {
                    cache.push(result.install_dir.clone());
                }
                return (result, runs);
            }
            BuildAction::Fail { stage } => panic!("unexpected failure at {:?}", stage),
        }
    }
}

#[test]
fn test_build_cruby_cached() {
    let mut cache: Vec<String> = vec![];
    let (first, first_runs) = drive(&mut cache);
    assert_eq!(first.cached, false);
    // bootstrap, configure, install
    assert_eq!(first_runs, 3);
    let (second, second_runs) = drive(&mut cache);
    assert_eq!(second.cached, true);
    // the second build runs no command at all
    assert_eq!(second_runs, 0);
    assert_eq!(first.install_dir, second.install_dir);
    assert_eq!(first.prefix, "/embd-root/ruby");
    assert_eq!(second.prefix, "/embd-root/ruby");
}

#[test]
fn configure_failure_prevents_install() {
    let workspace = Workspace::create(".rbwasm".to_string(), false);
    let (mut machine, action) = build_cruby(&workspace, fake_toolchain(), fake_input(), 4, None);
    let install_dir = match action {
        BuildAction::Probe { path } => path,
        other => panic!("unexpected action: {:?}", other),
    };
    assert!(install_dir.starts_with(".rbwasm/cache/ruby-"));
    // cache miss
    match machine.step(BuildEvent::Probed { present: false }) {
        BuildAction::ResolveSource { build_dir } => {
            assert!(build_dir.starts_with(".rbwasm/build/ruby-"));
        }
        other => panic!("unexpected action: {:?}", other),
    }
    // bootstrap runs and succeeds
    match machine.step(BuildEvent::SourceReady { dir: "fakeruby".to_string() }) {
        BuildAction::Run { cmd } => assert_eq!(cmd.program, "fakeruby/autogen.sh"),
        other => panic!("unexpected action: {:?}", other),
    }
    // the configuration step is the next command
    match machine.step(BuildEvent::Exited { success: true }) {
        BuildAction::Run { cmd } => assert_eq!(cmd.program, "fakeruby/configure"),
        other => panic!("unexpected action: {:?}", other),
    }
    // ... and its failure aborts the pipeline, naming the stage
    match machine.step(BuildEvent::Exited { success: false }) {
        BuildAction::Fail { stage } => assert_eq!(stage, Stage::Configure),
        other => panic!("unexpected action: {:?}", other),
    }
}

#[test]
fn bootstrap_failure_names_its_stage() {
    let workspace = Workspace::create(".rbwasm".to_string(), false);
    let (mut machine, _) = build_cruby(&workspace, fake_toolchain(), fake_input(), 4, None);
    machine.step(BuildEvent::Probed { present: false });
    machine.step(BuildEvent::SourceReady { dir: "fakeruby".to_string() });
    match machine.step(BuildEvent::Exited { success: false }) {
        BuildAction::Fail { stage } => assert_eq!(stage, Stage::Autogen),
        other => panic!("unexpected action: {:?}", other),
    }
}

#[test]
fn install_step_carries_shadowed_search_path() {
    let workspace = Workspace::create(".rbwasm".to_string(), false);
    let (mut machine, _) = build_cruby(&workspace, fake_toolchain(), fake_input(), 8, None);
    machine.step(BuildEvent::Probed { present: false });
    machine.step(BuildEvent::SourceReady { dir: "fakeruby".to_string() });
    machine.step(BuildEvent::Exited { success: true });
    match machine.step(BuildEvent::Exited { success: true }) {
        BuildAction::PrepareShadow { command } => assert_eq!(command, "wasm-opt"),
        other => panic!("unexpected action: {:?}", other),
    }
    match machine.step(BuildEvent::ShadowReady { search_path: "/stub:/usr/bin".to_string() }) {
        BuildAction::Run { cmd } => {
            assert_eq!(cmd.program, "make");
            assert_eq!(cmd.args, vec!["install".to_string(), "-j8".to_string()]);
            assert_eq!(cmd.env, vec![("PATH".to_string(), "/stub:/usr/bin".to_string())]);
            assert!(cmd.cwd.as_deref().unwrap().starts_with(".rbwasm/build/ruby-"));
        }
        other => panic!("unexpected action: {:?}", other),
    }
}

#[test]
fn configure_command_arguments() {
    let workspace = Workspace::create(".rbwasm".to_string(), false);
    let input = CRubyBuildInput {
        source: BuildSource::Dir { path: "/src/ruby".to_string() },
        asyncify_stack_size: 6144,
        extra_cc_args: vec!["-O2".to_string()],
        enabled_extentions: vec!["json".to_string(), "date".to_string()],
    };
    let (mut machine, _) = build_cruby(
        &workspace,
        Toolchain {
            wasm_opt: "/opt/bin/wasm-opt".to_string(),
            wasi_sdk: "/sdk".to_string(),
            rb_wasm_support: "/support".to_string(),
        },
        input,
        8,
        Some("100".to_string()),
    );
    machine.step(BuildEvent::Probed { present: false });
    machine.step(BuildEvent::SourceReady { dir: "/src/ruby".to_string() });
    let cmd = match machine.step(BuildEvent::Exited { success: true }) {
        BuildAction::Run { cmd } => cmd,
        other => panic!("unexpected action: {:?}", other),
    };
    assert_eq!(cmd.program, "/src/ruby/configure");
    let expected: Vec<String> = vec![
        "--host=wasm32-unknown-wasi".to_string(),
        "--disable-install-doc".to_string(),
        "--disable-jit-support".to_string(),
        "--with-coroutine=asyncify".to_string(),
        "--with-static-linked-ext".to_string(),
        "--prefix=/embd-root/ruby".to_string(),
        format!("--with-destdir={}", machine.install_dir),
        "--with-ext=json,date".to_string(),
        "XLDFLAGS=-Xlinker --relocatable".to_string(),
        format!(
            "LDFLAGS={}",
            [
                "--sysroot=/sdk/share/wasi-sysroot",
                "-L/sdk/share/wasi-sysroot/lib/wasm32-wasi",
                "-lwasi-emulated-mman",
                "-lwasi-emulated-signal",
                "-lwasi-emulated-getpid",
                "-lwasi-emulated-process-clocks",
                "-Xlinker",
                "--features=mutable-globals",
            ]
            .join(" ")
        ),
        format!(
            "CFLAGS={}",
            [
                "--sysroot=/sdk/share/wasi-sysroot",
                "-D_WASI_EMULATED_SIGNAL",
                "-D_WASI_EMULATED_MMAN",
                "-D_WASI_EMULATED_GETPID",
                "-D_WASI_EMULATED_PROCESS_CLOCKS",
                "-DRB_WASM_SUPPORT_EMULATE_SETJMP",
                "-DRB_WASM_SUPPORT_FRAME_BUFFER_SIZE=6144",
                "-O2",
                "-DTRANSIENT_HEAP_TOTAL_SIZE=100",
            ]
            .join(" ")
        ),
        "CC=/sdk/bin/clang".to_string(),
        "LD=/sdk/bin/clang".to_string(),
        "AR=/sdk/bin/llvm-ar".to_string(),
        "RANLIB=/sdk/bin/llvm-ranlib".to_string(),
    ];
    assert_eq!(cmd.args, expected);
    assert_eq!(cmd.cwd.as_deref(), Some(machine.build_dir.as_str()));
    assert!(cmd.env.is_empty());
}
