//! Plans for the external processes the pipeline runs.
//!
//! A [`Cmd`] is a complete description of one child process: program,
//! arguments, working directory and extra environment.  The builders here
//! compute exactly the invocations of the native build system, the linker and
//! the post-link passes; the surrounding binary spawns them unchanged.

use vstd::prelude::*;
use crate::paths::join_path;
use crate::paths::spec_join_path;
use crate::strutil::join_with;
use crate::strutil::spec_dec;
use crate::strutil::spec_join_with;
use crate::strutil::u64_to_dec;

verus! {

/// The external toolchain: absolute paths to the post-link optimizer and to
/// the cross-compilation SDK, and to the installed stack-switching support
/// runtime.
#[derive(Clone, Debug)]
pub struct Toolchain {
    pub wasm_opt: String,
    pub wasi_sdk: String,
    pub rb_wasm_support: String,
}

/// One planned child process.
#[derive(Debug)]
pub struct Cmd {
    pub program: String,
    pub args: Vec<String>,
    pub cwd: Option<String>,
    pub env: Vec<(String, String)>,
}

/// The mathematical value of a [`Cmd`].
pub struct CmdView {
    pub program: Seq<char>,
    pub args: Seq<Seq<char>>,
    pub cwd: Option<Seq<char>>,
    pub env: Seq<(Seq<char>, Seq<char>)>,
}

impl View for Cmd {
    type V = CmdView;

    open spec fn view(&self) -> CmdView {
        CmdView {
            program: self.program@,
            args: self.args.deep_view(),
            cwd: match self.cwd {
                Some(ref d) => Some(d@),
                None => None,
            },
            env: self.env.deep_view(),
        }
    }
}

/// The linker flags the configuration step passes through `LDFLAGS`.
pub open spec fn spec_ldflags(wasi_sdk: Seq<char>) -> Seq<Seq<char>> {
    seq![
        "--sysroot="@ + wasi_sdk + "/share/wasi-sysroot"@,
        "-L"@ + wasi_sdk + "/share/wasi-sysroot/lib/wasm32-wasi"@,
        "-lwasi-emulated-mman"@,
        "-lwasi-emulated-signal"@,
        "-lwasi-emulated-getpid"@,
        "-lwasi-emulated-process-clocks"@,
        "-Xlinker"@,
        "--features=mutable-globals"@,
    ]
}

/// The compiler flags the configuration step passes through `CFLAGS`: the
/// target defines, the stack-switching frame-buffer size, the caller's extra
/// flags, and the optional transient-heap size override.
pub open spec fn spec_cflags(
    wasi_sdk: Seq<char>,
    asyncify_stack_size: usize,
    extra_cc_args: Seq<Seq<char>>,
    transient_heap_total_size: Option<Seq<char>>,
) -> Seq<Seq<char>> {
    seq![
        "--sysroot="@ + wasi_sdk + "/share/wasi-sysroot"@,
        "-D_WASI_EMULATED_SIGNAL"@,
        "-D_WASI_EMULATED_MMAN"@,
        "-D_WASI_EMULATED_GETPID"@,
        "-D_WASI_EMULATED_PROCESS_CLOCKS"@,
        "-DRB_WASM_SUPPORT_EMULATE_SETJMP"@,
        "-DRB_WASM_SUPPORT_FRAME_BUFFER_SIZE="@ + spec_dec(asyncify_stack_size as nat),
    ] + extra_cc_args + (match transient_heap_total_size {
        Some(v) => seq!["-DTRANSIENT_HEAP_TOTAL_SIZE="@ + v],
        None => Seq::empty(),
    })
}

/// The arguments of the configuration step.
pub open spec fn spec_configure_args(
    wasi_sdk: Seq<char>,
    install_dir: Seq<char>,
    prefix: Seq<char>,
    asyncify_stack_size: usize,
    enabled_extensions: Seq<Seq<char>>,
    extra_cc_args: Seq<Seq<char>>,
    transient_heap_total_size: Option<Seq<char>>,
) -> Seq<Seq<char>> {
    seq![
        "--host=wasm32-unknown-wasi"@,
        "--disable-install-doc"@,
        "--disable-jit-support"@,
        "--with-coroutine=asyncify"@,
        "--with-static-linked-ext"@,
        "--prefix="@ + prefix,
        "--with-destdir="@ + install_dir,
        "--with-ext="@ + spec_join_with(enabled_extensions, ","@),
        "XLDFLAGS=-Xlinker --relocatable"@,
        "LDFLAGS="@ + spec_join_with(spec_ldflags(wasi_sdk), " "@),
        "CFLAGS="@ + spec_join_with(
            spec_cflags(wasi_sdk, asyncify_stack_size, extra_cc_args, transient_heap_total_size),
            " "@,
        ),
        "CC="@ + wasi_sdk + "/bin/clang"@,
        "LD="@ + wasi_sdk + "/bin/clang"@,
        "AR="@ + wasi_sdk + "/bin/llvm-ar"@,
        "RANLIB="@ + wasi_sdk + "/bin/llvm-ranlib"@,
    ]
}

fn concat3(a: &str, b: &str, c: &str) -> (r: String)
    ensures
        r@ == a@ + b@ + c@,
{
    let mut r = String::from_str(a);
    r.append(b);
    r.append(c);
    r
}

fn concat2(a: &str, b: &str) -> (r: String)
    ensures
        r@ == a@ + b@,
{
    let mut r = String::from_str(a);
    r.append(b);
    r
}

pub(crate) fn push_all(out: &mut Vec<String>, more: &Vec<String>)
    ensures
        final(out).deep_view() == old(out).deep_view() + more.deep_view(),
{
    let ghost orig = out.deep_view();
    let mut i: usize = 0;
    while i < more.len()
        invariant
            i <= more.len(),
            more.deep_view().len() == more.len(),
            out.deep_view() == orig + more.deep_view().take(i as int),
        decreases more.len() - i,
    {
        let ghost prev = out.deep_view();
        out.push(more[i].clone());
        proof {
            let k = i as int;
            assert forall|j: int| 0 <= j < prev.len() implies out.deep_view()[j] == prev[j] by {
                assert(out.deep_view()[j] == out@[j].deep_view());
            }
            assert(out.deep_view().len() == out@.len());
            assert(out@.len() == prev.len() + 1);
            assert(out.deep_view()[prev.len() as int] == out@[prev.len() as int].deep_view());
            assert(out@[prev.len() as int] == more@[k]);
            assert(more@[k].deep_view() == more.deep_view()[k]);
            assert(more.deep_view().take(k).len() == k);
            assert(more.deep_view().take(k + 1).len() == k + 1);
            assert(prev.len() == orig.len() + k);
            let target = orig + more.deep_view().take(k + 1);
            assert(out.deep_view().len() == target.len());
            assert forall|j: int| 0 <= j < target.len() implies out.deep_view()[j] == target[j] by {
                if j < prev.len() {
                    assert(out.deep_view()[j] == prev[j]);
                    assert(prev[j] == (orig + more.deep_view().take(k))[j]);
                    if j < orig.len() {
                        assert(target[j] == orig[j]);
                    } else {
                        assert(target[j] == more.deep_view().take(k + 1)[j - orig.len()]);
                        assert(more.deep_view().take(k + 1)[j - orig.len()] == more.deep_view()[j
                            - orig.len()]);
                        assert(prev[j] == more.deep_view().take(k)[j - orig.len()]);
                    }
                } else {
                    assert(j == prev.len());
                    assert(out.deep_view()[j] == more.deep_view()[k]);
                    assert(target[j] == more.deep_view().take(k + 1)[k]);
                }
            }
            assert(out.deep_view() =~= target);
        }
        i = i + 1;
    }
    proof {
        assert(more.deep_view().take(more.len() as int) =~= more.deep_view());
    }
}

/// Plans the native build system's configuration step: the cross-compilation
/// host triple, the feature selection, the install prefix and staging
/// destination, and the compiler/linker overrides, run from `build_dir`.
///
/// `XLDFLAGS` keeps the output relocatable so that the generated filesystem
/// and preset-argument objects can later be concatenated into the module.
pub fn configure_cruby(
    toolchain: &Toolchain,
    src_dir: &str,
    build_dir: &str,
    install_dir: &str,
    prefix: &str,
    asyncify_stack_size: usize,
    enabled_extensions: &Vec<String>,
    extra_cc_args: &Vec<String>,
    transient_heap_total_size: Option<&String>,
) -> (r: Cmd)
    ensures
        r@.program == spec_join_path(src_dir@, "configure"@),
        r@.cwd == Some(build_dir@),
        r@.env == Seq::<(Seq<char>, Seq<char>)>::empty(),
        r@.args == spec_configure_args(
            toolchain.wasi_sdk@,
            install_dir@,
            prefix@,
            asyncify_stack_size,
            enabled_extensions.deep_view(),
            extra_cc_args.deep_view(),
            match transient_heap_total_size {
                Some(v) => Some(v@),
                None => None,
            },
        ),
{
    let sdk = toolchain.wasi_sdk.as_str();
    let mut ldflags: Vec<String> = Vec::new();
    ldflags.push(concat3("--sysroot=", sdk, "/share/wasi-sysroot"));
    ldflags.push(concat3("-L", sdk, "/share/wasi-sysroot/lib/wasm32-wasi"));
    ldflags.push(String::from_str("-lwasi-emulated-mman"));
    ldflags.push(String::from_str("-lwasi-emulated-signal"));
    ldflags.push(String::from_str("-lwasi-emulated-getpid"));
    ldflags.push(String::from_str("-lwasi-emulated-process-clocks"));
    ldflags.push(String::from_str("-Xlinker"));
    ldflags.push(String::from_str("--features=mutable-globals"));
    proof {
        assert(ldflags.deep_view() =~= spec_ldflags(sdk@));
    }

    let mut cflags: Vec<String> = Vec::new();
    cflags.push(concat3("--sysroot=", sdk, "/share/wasi-sysroot"));
    cflags.push(String::from_str("-D_WASI_EMULATED_SIGNAL"));
    cflags.push(String::from_str("-D_WASI_EMULATED_MMAN"));
    cflags.push(String::from_str("-D_WASI_EMULATED_GETPID"));
    cflags.push(String::from_str("-D_WASI_EMULATED_PROCESS_CLOCKS"));
    cflags.push(String::from_str("-DRB_WASM_SUPPORT_EMULATE_SETJMP"));
    let stack_dec = u64_to_dec(asyncify_stack_size as u64);
    cflags.push(concat2("-DRB_WASM_SUPPORT_FRAME_BUFFER_SIZE=", stack_dec.as_str()));
    proof {
        assert(cflags.deep_view() =~= seq![
            "--sysroot="@ + sdk@ + "/share/wasi-sysroot"@,
            "-D_WASI_EMULATED_SIGNAL"@,
            "-D_WASI_EMULATED_MMAN"@,
            "-D_WASI_EMULATED_GETPID"@,
            "-D_WASI_EMULATED_PROCESS_CLOCKS"@,
            "-DRB_WASM_SUPPORT_EMULATE_SETJMP"@,
            "-DRB_WASM_SUPPORT_FRAME_BUFFER_SIZE="@ + spec_dec(asyncify_stack_size as nat),
        ]);
    }
    push_all(&mut cflags, extra_cc_args);
    let mut heap_flags: Vec<String> = Vec::new();
    match transient_heap_total_size {
        Some(v) => {
            heap_flags.push(concat2("-DTRANSIENT_HEAP_TOTAL_SIZE=", v.as_str()));
            proof {
                assert(heap_flags.deep_view() =~= seq!["-DTRANSIENT_HEAP_TOTAL_SIZE="@ + v@]);
            }
        },
        None => {
            proof {
                assert(heap_flags.deep_view() =~= Seq::<Seq<char>>::empty());
            }
        },
    }
    push_all(&mut cflags, &heap_flags);
    proof {
        assert(cflags.deep_view() =~= spec_cflags(
            sdk@,
            asyncify_stack_size,
            extra_cc_args.deep_view(),
            match transient_heap_total_size {
                Some(v) => Some(v@),
                None => None,
            },
        ));
    }

    let mut args: Vec<String> = Vec::new();
    args.push(String::from_str("--host=wasm32-unknown-wasi"));
    args.push(String::from_str("--disable-install-doc"));
    args.push(String::from_str("--disable-jit-support"));
    args.push(String::from_str("--with-coroutine=asyncify"));
    args.push(String::from_str("--with-static-linked-ext"));
    args.push(concat2("--prefix=", prefix));
    args.push(concat2("--with-destdir=", install_dir));
    let exts = join_with(enabled_extensions, ",");
    args.push(concat2("--with-ext=", exts.as_str()));
    args.push(String::from_str("XLDFLAGS=-Xlinker --relocatable"));
    let ldflags_joined = join_with(&ldflags, " ");
    args.push(concat2("LDFLAGS=", ldflags_joined.as_str()));
    let cflags_joined = join_with(&cflags, " ");
    args.push(concat2("CFLAGS=", cflags_joined.as_str()));
    args.push(concat3("CC=", sdk, "/bin/clang"));
    args.push(concat3("LD=", sdk, "/bin/clang"));
    args.push(concat3("AR=", sdk, "/bin/llvm-ar"));
    args.push(concat3("RANLIB=", sdk, "/bin/llvm-ranlib"));
    proof {
        assert(args.deep_view() =~= spec_configure_args(
            toolchain.wasi_sdk@,
            install_dir@,
            prefix@,
            asyncify_stack_size,
            enabled_extensions.deep_view(),
            extra_cc_args.deep_view(),
            match transient_heap_total_size {
                Some(v) => Some(v@),
                None => None,
            },
        ));
    }

    let program = join_path(src_dir, "configure");
    let r = Cmd { program, args, cwd: Some(String::from_str(build_dir)), env: Vec::new() };
    proof {
        assert(r@.env =~= Seq::<(Seq<char>, Seq<char>)>::empty());
    }
    r
}

/// Plans the source bootstrap step: the source tree's own generation script,
/// safe to rerun.
pub fn autogen_command(src_dir: &str) -> (r: Cmd)
    ensures
        r@.program == spec_join_path(src_dir@, "autogen.sh"@),
        r@.args == Seq::<Seq<char>>::empty(),
        r@.cwd is None,
        r@.env == Seq::<(Seq<char>, Seq<char>)>::empty(),
{
    let r = Cmd {
        program: join_path(src_dir, "autogen.sh"),
        args: Vec::new(),
        cwd: None,
        env: Vec::new(),
    };
    proof {
        assert(r@.args =~= Seq::<Seq<char>>::empty());
        assert(r@.env =~= Seq::<(Seq<char>, Seq<char>)>::empty());
    }
    r
}

/// Plans the build-and-install step, run in `build_dir` with the given
/// parallelism and with `PATH` replaced by `search_path`.
///
/// The caller puts a directory holding a stub `wasm-opt` at the front of
/// `search_path`: the toolchain's post-link optimizer would irreversibly
/// finalize the relocatable output, so it is shadowed by an always-succeeding
/// stub for this one invocation.
pub fn make_install_command(build_dir: &str, jobs: u64, search_path: &str) -> (r: Cmd)
    ensures
        r@.program == "make"@,
        r@.args == seq!["install"@, "-j"@ + spec_dec(jobs as nat)],
        r@.cwd == Some(build_dir@),
        r@.env == seq![("PATH"@, search_path@)],
{
    let mut args: Vec<String> = Vec::new();
    args.push(String::from_str("install"));
    let jobs_dec = u64_to_dec(jobs);
    args.push(concat2("-j", jobs_dec.as_str()));
    let mut env: Vec<(String, String)> = Vec::new();
    env.push((String::from_str("PATH"), String::from_str(search_path)));
    let r = Cmd {
        program: String::from_str("make"),
        args,
        cwd: Some(String::from_str(build_dir)),
        env,
    };
    proof {
        assert(r@.args =~= seq!["install"@, "-j"@ + spec_dec(jobs as nat)]);
        assert(r@.env =~= seq![("PATH"@, search_path@)]);
    }
    r
}

/// Plans the archive-extraction step: a tar child reading the compressed
/// stream on its standard input, stripping the top-level directory, writing
/// into `dest`.
pub fn tar_extract_command(dest: &str) -> (r: Cmd)
    ensures
        r@.program == "tar"@,
        r@.args == seq!["xz"@, "--strip-components"@, "1"@],
        r@.cwd == Some(dest@),
        r@.env == Seq::<(Seq<char>, Seq<char>)>::empty(),
{
    let mut args: Vec<String> = Vec::new();
    args.push(String::from_str("xz"));
    args.push(String::from_str("--strip-components"));
    args.push(String::from_str("1"));
    let r = Cmd {
        program: String::from_str("tar"),
        args,
        cwd: Some(String::from_str(dest)),
        env: Vec::new(),
    };
    proof {
        assert(r@.args =~= seq!["xz"@, "--strip-components"@, "1"@]);
        assert(r@.env =~= Seq::<(Seq<char>, Seq<char>)>::empty());
    }
    r
}

/// Plans a user-supplied build hook, handed the installed runtime root
/// through `RUBY_ROOT`.
pub fn run_build_hook(build_hook: &str, host_ruby_root: &str) -> (r: Cmd)
    ensures
        r@.program == build_hook@,
        r@.args == Seq::<Seq<char>>::empty(),
        r@.cwd is None,
        r@.env == seq![("RUBY_ROOT"@, host_ruby_root@)],
{
    let mut env: Vec<(String, String)> = Vec::new();
    env.push((String::from_str("RUBY_ROOT"), String::from_str(host_ruby_root)));
    let r = Cmd { program: String::from_str(build_hook), args: Vec::new(), cwd: None, env };
    proof {
        assert(r@.args =~= Seq::<Seq<char>>::empty());
        assert(r@.env =~= seq![("RUBY_ROOT"@, host_ruby_root@)]);
    }
    r
}

/// Plans the stack-switching post-process pass over the linked module; input
/// and output may be the same path, overwritten in place.
pub fn asyncify_executable(toolchain: &Toolchain, with_debuginfo: bool, input: &str, output: &str) -> (r: Cmd)
    ensures
        r@.program == toolchain.wasm_opt@,
        r@.args == seq![input@, "--asyncify"@, "-O"@] + (if with_debuginfo {
            seq!["-g"@]
        } else {
            Seq::empty()
        }) + seq!["--pass-arg=asyncify-ignore-imports"@, "-o"@, output@],
        r@.cwd is None,
        r@.env == Seq::<(Seq<char>, Seq<char>)>::empty(),
{
    let mut args: Vec<String> = Vec::new();
    args.push(String::from_str(input));
    args.push(String::from_str("--asyncify"));
    args.push(String::from_str("-O"));
    if with_debuginfo {
        args.push(String::from_str("-g"));
    }
    args.push(String::from_str("--pass-arg=asyncify-ignore-imports"));
    args.push(String::from_str("-o"));
    args.push(String::from_str(output));
    let r = Cmd { program: toolchain.wasm_opt.clone(), args, cwd: None, env: Vec::new() };
    proof {
        assert(r@.args =~= seq![input@, "--asyncify"@, "-O"@] + (if with_debuginfo {
            seq!["-g"@]
        } else {
            Seq::<Seq<char>>::empty()
        }) + seq!["--pass-arg=asyncify-ignore-imports"@, "-o"@, output@]);
        assert(r@.env =~= Seq::<(Seq<char>, Seq<char>)>::empty());
    }
    r
}

} // verus!
