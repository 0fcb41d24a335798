//! The interpreter-build pipeline as a state machine.
//!
//! Every slow, side-effecting step — probing the cache directory, fetching
//! sources, running the bootstrap, configuration and install commands — is
//! performed by the surrounding binary.  The machine decides: it hands out
//! one action at a time, consumes the outcome, and either advances, finishes
//! (possibly straight from the cache probe, skipping the native build
//! entirely), or fails naming the stage that failed.  Once it is done or
//! failed it accepts no further event, so nothing runs after a failure and
//! nothing runs after a cache hit.

use vstd::prelude::*;
use crate::cache::CRubyBuildInput;
use crate::cache::spec_cache_key;
use crate::cmd::Cmd;
use crate::cmd::CmdView;
use crate::cmd::Toolchain;
use crate::cmd::autogen_command;
use crate::cmd::configure_cruby;
use crate::cmd::make_install_command;
use crate::cmd::spec_configure_args;
use crate::paths::spec_join_path;
use crate::strutil::spec_dec;
use crate::workspace::Workspace;

verus! {

/// Where one native interpreter build landed: the install tree, whether it
/// came out of the cache, and the install-time logical root path under which
/// the binary and the runtime files live.
#[derive(Debug)]
pub struct BuildResult {
    pub install_dir: String,
    pub cached: bool,
    pub prefix: String,
}

/// The mathematical value of a [`BuildResult`].
#[verifier::ext_equal]
pub struct BuildResultView {
    pub install_dir: Seq<char>,
    pub cached: bool,
    pub prefix: Seq<char>,
}

impl View for BuildResult {
    type V = BuildResultView;

    open spec fn view(&self) -> BuildResultView {
        BuildResultView {
            install_dir: self.install_dir@,
            cached: self.cached,
            prefix: self.prefix@,
        }
    }
}

/// Where the machine stands.
#[derive(Clone, Copy, Debug, PartialEq, Eq, Structural)]
pub enum Stage {
    /// Asking whether the install directory already exists.
    Probe,
    /// Obtaining a source directory.
    Source,
    /// Running the source bootstrap script.
    Autogen,
    /// Running the build system's configuration step.
    Configure,
    /// Setting up the stub that shadows the post-link optimizer.
    Shadow,
    /// Running the build-and-install step.
    MakeInstall,
    /// Finished, successfully.
    Done,
    /// Failed; the pipeline is aborted.
    Failed,
}

/// What the surrounding binary reports back to the machine.
pub enum BuildEvent {
    /// Whether the probed directory exists.
    Probed { present: bool },
    /// The resolved source directory.
    SourceReady { dir: String },
    /// The search path to run the install step under, with the stub
    /// directory already at its front.
    ShadowReady { search_path: String },
    /// Whether the last command exited successfully.
    Exited { success: bool },
}

/// What the machine asks the surrounding binary to do next.
#[derive(Debug)]
pub enum BuildAction {
    /// Report whether this directory exists.
    Probe { path: String },
    /// Resolve the build source against this scratch directory (see
    /// `source::install_build_src`) and report the source directory.
    ResolveSource { build_dir: String },
    /// Run this command and report its exit.
    Run { cmd: Cmd },
    /// Put an always-succeeding stub with this command's name in front of a
    /// copy of the search path, and report that path.
    PrepareShadow { command: String },
    /// The build is complete.
    Finished { result: BuildResult },
    /// The named stage failed; the pipeline is aborted.
    Fail { stage: Stage },
}

/// The mathematical value of a [`BuildAction`].
#[verifier::ext_equal]
pub enum BuildActionView {
    Probe { path: Seq<char> },
    ResolveSource { build_dir: Seq<char> },
    Run { cmd: CmdView },
    PrepareShadow { command: Seq<char> },
    Finished { result: BuildResultView },
    Fail { stage: Stage },
}

impl View for BuildAction {
    type V = BuildActionView;

    open spec fn view(&self) -> BuildActionView {
        match self {
            BuildAction::Probe { path } => BuildActionView::Probe { path: path@ },
            BuildAction::ResolveSource { build_dir } => BuildActionView::ResolveSource {
                build_dir: build_dir@,
            },
            BuildAction::Run { cmd } => BuildActionView::Run { cmd: cmd@ },
            BuildAction::PrepareShadow { command } => BuildActionView::PrepareShadow {
                command: command@,
            },
            BuildAction::Finished { result } => BuildActionView::Finished { result: result@ },
            BuildAction::Fail { stage } => BuildActionView::Fail { stage: *stage },
        }
    }
}

/// One native interpreter build in progress.
pub struct CRubyBuild {
    pub stage: Stage,
    pub toolchain: Toolchain,
    pub input: CRubyBuildInput,
    pub build_dir: String,
    pub install_dir: String,
    pub prefix: String,
    pub src_dir: Option<String>,
    pub jobs: u64,
    pub transient_heap_total_size: Option<String>,
}

/// Which event answers which stage.  A finished or failed machine accepts no
/// event at all.
pub open spec fn event_fits(stage: Stage, event: BuildEvent) -> bool {
    match stage {
        Stage::Probe => event is Probed,
        Stage::Source => event is SourceReady,
        Stage::Autogen => event is Exited,
        Stage::Configure => event is Exited,
        Stage::Shadow => event is ShadowReady,
        Stage::MakeInstall => event is Exited,
        Stage::Done => false,
        Stage::Failed => false,
    }
}

impl CRubyBuild {
    /// The machine knows its source directory from the moment the bootstrap
    /// stage starts.
    pub open spec fn wf(self) -> bool {
        (self.stage is Autogen || self.stage is Configure || self.stage is Shadow
            || self.stage is MakeInstall) ==> self.src_dir is Some
    }

    /// The stage after consuming `event`.
    pub open spec fn spec_next_stage(self, event: BuildEvent) -> Stage {
        match (self.stage, event) {
            (Stage::Probe, BuildEvent::Probed { present }) => if present {
                Stage::Done
            } else {
                Stage::Source
            },
            (Stage::Source, BuildEvent::SourceReady { .. }) => Stage::Autogen,
            (Stage::Autogen, BuildEvent::Exited { success }) => if success {
                Stage::Configure
            } else {
                Stage::Failed
            },
            (Stage::Configure, BuildEvent::Exited { success }) => if success {
                Stage::Shadow
            } else {
                Stage::Failed
            },
            (Stage::Shadow, BuildEvent::ShadowReady { .. }) => Stage::MakeInstall,
            (Stage::MakeInstall, BuildEvent::Exited { success }) => if success {
                Stage::Done
            } else {
                Stage::Failed
            },
            _ => self.stage,
        }
    }

    /// The source directory after consuming `event`.
    pub open spec fn spec_next_src_dir(self, event: BuildEvent) -> Option<Seq<char>> {
        match (self.stage, event) {
            (Stage::Source, BuildEvent::SourceReady { dir }) => Some(dir@),
            _ => match self.src_dir {
                Some(d) => Some(d@),
                None => None,
            },
        }
    }

    /// The action handed out on consuming `event`.
    pub open spec fn spec_action(self, event: BuildEvent) -> BuildActionView {
        match (self.stage, event) {
            (Stage::Probe, BuildEvent::Probed { present }) => if present {
                BuildActionView::Finished {
                    result: BuildResultView {
                        install_dir: self.install_dir@,
                        cached: true,
                        prefix: self.prefix@,
                    },
                }
            } else {
                BuildActionView::ResolveSource { build_dir: self.build_dir@ }
            },
            (Stage::Source, BuildEvent::SourceReady { dir }) => BuildActionView::Run {
                cmd: CmdView {
                    program: spec_join_path(dir@, "autogen.sh"@),
                    args: Seq::empty(),
                    cwd: None,
                    env: Seq::empty(),
                },
            },
            (Stage::Autogen, BuildEvent::Exited { success }) => if success {
                BuildActionView::Run {
                    cmd: CmdView {
                        program: spec_join_path(self.src_dir.unwrap()@, "configure"@),
                        args: spec_configure_args(
                            self.toolchain.wasi_sdk@,
                            self.install_dir@,
                            self.prefix@,
                            self.input.asyncify_stack_size,
                            self.input.enabled_extentions.deep_view(),
                            self.input.extra_cc_args.deep_view(),
                            match self.transient_heap_total_size {
                                Some(v) => Some(v@),
                                None => None,
                            },
                        ),
                        cwd: Some(self.build_dir@),
                        env: Seq::empty(),
                    },
                }
            } else {
                BuildActionView::Fail { stage: Stage::Autogen }
            },
            (Stage::Configure, BuildEvent::Exited { success }) => if success {
                BuildActionView::PrepareShadow { command: "wasm-opt"@ }
            } else {
                BuildActionView::Fail { stage: Stage::Configure }
            },
            (Stage::Shadow, BuildEvent::ShadowReady { search_path }) => BuildActionView::Run {
                cmd: CmdView {
                    program: "make"@,
                    args: seq!["install"@, "-j"@ + spec_dec(self.jobs as nat)],
                    cwd: Some(self.build_dir@),
                    env: seq![("PATH"@, search_path@)],
                },
            },
            (Stage::MakeInstall, BuildEvent::Exited { success }) => if success {
                BuildActionView::Finished {
                    result: BuildResultView {
                        install_dir: self.install_dir@,
                        cached: false,
                        prefix: self.prefix@,
                    },
                }
            } else {
                BuildActionView::Fail { stage: Stage::MakeInstall }
            },
            _ => BuildActionView::Fail { stage: self.stage },
        }
    }

    /// Consumes one event and hands out the next action.
    ///
    /// Everything but the stage and the remembered source directory stays as
    /// it was.
    pub fn step(&mut self, event: BuildEvent) -> (r: BuildAction)
        requires
            old(self).wf(),
            event_fits(old(self).stage, event),
        ensures
            final(self).wf(),
            final(self).stage == old(self).spec_next_stage(event),
            r@ == old(self).spec_action(event),
            final(self).toolchain == old(self).toolchain,
            final(self).input == old(self).input,
            final(self).build_dir == old(self).build_dir,
            final(self).install_dir == old(self).install_dir,
            final(self).prefix == old(self).prefix,
            final(self).jobs == old(self).jobs,
            final(self).transient_heap_total_size == old(self).transient_heap_total_size,
            match final(self).src_dir {
                Some(d) => old(self).spec_next_src_dir(event) == Some(d@),
                None => old(self).spec_next_src_dir(event) is None,
            },
    {
        match self.stage {
            Stage::Probe => {
                let present = match event {
                    BuildEvent::Probed { present } => present,
                    _ => {
                        proof {
                            assert(false);
                        }
                        false
                    },
                };
                if present {
                    self.stage = Stage::Done;
                    BuildAction::Finished {
                        result: BuildResult {
                            install_dir: self.install_dir.clone(),
                            cached: true,
                            prefix: self.prefix.clone(),
                        },
                    }
                } else {
                    self.stage = Stage::Source;
                    BuildAction::ResolveSource { build_dir: self.build_dir.clone() }
                }
            },
            Stage::Source => {
                let dir = match event {
                    BuildEvent::SourceReady { dir } => dir,
                    _ => {
                        proof {
                            assert(false);
                        }
                        String::new()
                    },
                };
                let cmd = autogen_command(dir.as_str());
                self.src_dir = Some(dir);
                self.stage = Stage::Autogen;
                BuildAction::Run { cmd }
            },
            Stage::Autogen => {
                let success = match event {
                    BuildEvent::Exited { success } => success,
                    _ => {
                        proof {
                            assert(false);
                        }
                        false
                    },
                };
                if success {
                    let src_dir = match &self.src_dir {
                        Some(d) => d.clone(),
                        None => {
                            proof {
                                assert(false);
                            }
                            String::new()
                        },
                    };
                    let cmd = configure_cruby(
                        &self.toolchain,
                        src_dir.as_str(),
                        self.build_dir.as_str(),
                        self.install_dir.as_str(),
                        self.prefix.as_str(),
                        self.input.asyncify_stack_size,
                        &self.input.enabled_extentions,
                        &self.input.extra_cc_args,
                        self.transient_heap_total_size.as_ref(),
                    );
                    self.stage = Stage::Configure;
                    BuildAction::Run { cmd }
                } else {
                    self.stage = Stage::Failed;
                    BuildAction::Fail { stage: Stage::Autogen }
                }
            },
            Stage::Configure => {
                let success = match event {
                    BuildEvent::Exited { success } => success,
                    _ => {
                        proof {
                            assert(false);
                        }
                        false
                    },
                };
                if success {
                    self.stage = Stage::Shadow;
                    BuildAction::PrepareShadow { command: String::from_str("wasm-opt") }
                } else {
                    self.stage = Stage::Failed;
                    BuildAction::Fail { stage: Stage::Configure }
                }
            },
            Stage::Shadow => {
                let search_path = match event {
                    BuildEvent::ShadowReady { search_path } => search_path,
                    _ => {
                        proof {
                            assert(false);
                        }
                        String::new()
                    },
                };
                let cmd = make_install_command(self.build_dir.as_str(), self.jobs, search_path.as_str());
                self.stage = Stage::MakeInstall;
                BuildAction::Run { cmd }
            },
            Stage::MakeInstall => {
                let success = match event {
                    BuildEvent::Exited { success } => success,
                    _ => {
                        proof {
                            assert(false);
                        }
                        false
                    },
                };
                if success {
                    self.stage = Stage::Done;
                    BuildAction::Finished {
                        result: BuildResult {
                            install_dir: self.install_dir.clone(),
                            cached: false,
                            prefix: self.prefix.clone(),
                        },
                    }
                } else {
                    self.stage = Stage::Failed;
                    BuildAction::Fail { stage: Stage::MakeInstall }
                }
            },
            Stage::Done => {
                proof {
                    assert(false);
                }
                BuildAction::Fail { stage: Stage::Done }
            },
            Stage::Failed => {
                proof {
                    assert(false);
                }
                BuildAction::Fail { stage: Stage::Failed }
            },
        }
    }
}

/// Starts one native interpreter build: derives the content-addressed
/// scratch and install directories, and first asks whether the install
/// directory already exists — its presence is the cache hit.
pub fn build_cruby(
    workspace: &Workspace,
    toolchain: Toolchain,
    input: CRubyBuildInput,
    jobs: u64,
    transient_heap_total_size: Option<String>,
) -> (r: (CRubyBuild, BuildAction))
    ensures
        r.0.wf(),
        r.0.stage == Stage::Probe,
        r.0.build_dir@ == spec_join_path(
            spec_join_path(workspace.dir@, "build"@),
            spec_cache_key("ruby"@, input@),
        ),
        r.0.install_dir@ == spec_join_path(
            spec_join_path(workspace.dir@, "cache"@),
            spec_cache_key("ruby"@, input@),
        ),
        r.0.prefix@ == "/embd-root/ruby"@,
        r.0.toolchain == toolchain,
        r.0.input == input,
        r.0.jobs == jobs,
        r.0.transient_heap_total_size == transient_heap_total_size,
        (r.0.src_dir is None),
        r.1@ == (BuildActionView::Probe { path: r.0.install_dir@ }),
{
    let (build_dir, install_dir) = workspace.hashed_dirs(&input, "ruby");
    let machine = CRubyBuild {
        stage: Stage::Probe,
        toolchain,
        input,
        build_dir,
        install_dir: install_dir.clone(),
        prefix: String::from_str("/embd-root/ruby"),
        src_dir: None,
        jobs,
        transient_heap_total_size,
    };
    let action = BuildAction::Probe { path: install_dir };
    (machine, action)
}

/// Cache idempotence: a machine standing at the cache probe that learns the
/// install directory is present finishes at once, with `cached` set and with
/// that same install directory, and the finished machine accepts no further
/// event — in particular, no command is ever run for it.  Since the probed
/// path is a pure function of the workspace root and the descriptor, a second
/// build with an identical descriptor probes exactly the directory the first
/// build installed into.
pub proof fn lemma_cache_hit_short_circuits(m: CRubyBuild)
    requires
        m.wf(),
        m.stage is Probe,
    ensures
        (m.spec_next_stage(BuildEvent::Probed { present: true }) is Done),
        m.spec_action(BuildEvent::Probed { present: true }) == (BuildActionView::Finished {
            result: BuildResultView { install_dir: m.install_dir@, cached: true, prefix: m.prefix@ },
        }),
        forall|e: BuildEvent| !event_fits(Stage::Done, e),
{
}

/// A fresh build reports `cached` unset: a machine at the install step whose
/// command succeeds finishes with `cached == false`.
pub proof fn lemma_fresh_build_not_cached(m: CRubyBuild)
    requires
        m.wf(),
        m.stage is MakeInstall,
    ensures
        (m.spec_next_stage(BuildEvent::Exited { success: true }) is Done),
        m.spec_action(BuildEvent::Exited { success: true }) == (BuildActionView::Finished {
            result: BuildResultView {
                install_dir: m.install_dir@,
                cached: false,
                prefix: m.prefix@,
            },
        }),
{
}

/// Failure propagation: a configuration step that exits unsuccessfully
/// aborts the pipeline with an error naming the configuration stage, and the
/// failed machine accepts no further event — so the install step is never
/// invoked after it.
pub proof fn lemma_configure_failure_stops_pipeline(m: CRubyBuild)
    requires
        m.wf(),
        m.stage is Configure,
    ensures
        (m.spec_next_stage(BuildEvent::Exited { success: false }) is Failed),
        m.spec_action(BuildEvent::Exited { success: false }) == (BuildActionView::Fail {
            stage: Stage::Configure,
        }),
        forall|e: BuildEvent| !event_fits(Stage::Failed, e),
{
}

/// The default feature/extension selection of the native build.
pub open spec fn spec_default_enabled_extensions() -> Seq<Seq<char>> {
    seq![
        "bigdecimal"@,
        "cgi/escape"@,
        "continuation"@,
        "coverage"@,
        "date"@,
        "dbm"@,
        "digest/bubblebabble"@,
        "digest"@,
        "digest/md5"@,
        "digest/rmd160"@,
        "digest/sha1"@,
        "digest/sha2"@,
        "etc"@,
        "fcntl"@,
        "fiber"@,
        "gdbm"@,
        "json"@,
        "json/generator"@,
        "json/parser"@,
        "nkf"@,
        "objspace"@,
        "pathname"@,
        "psych"@,
        "racc/cparse"@,
        "rbconfig/sizeof"@,
        "ripper"@,
        "stringio"@,
        "strscan"@,
        "monitor"@,
    ]
}

/// The extensions enabled when the caller selects none.
pub fn default_enabled_extensions() -> (r: Vec<String>)
    ensures
        r.deep_view() == spec_default_enabled_extensions(),
{
    let mut r: Vec<String> = Vec::new();
    r.push(String::from_str("bigdecimal"));
    r.push(String::from_str("cgi/escape"));
    r.push(String::from_str("continuation"));
    r.push(String::from_str("coverage"));
    r.push(String::from_str("date"));
    r.push(String::from_str("dbm"));
    r.push(String::from_str("digest/bubblebabble"));
    r.push(String::from_str("digest"));
    r.push(String::from_str("digest/md5"));
    r.push(String::from_str("digest/rmd160"));
    r.push(String::from_str("digest/sha1"));
    r.push(String::from_str("digest/sha2"));
    r.push(String::from_str("etc"));
    r.push(String::from_str("fcntl"));
    r.push(String::from_str("fiber"));
    r.push(String::from_str("gdbm"));
    r.push(String::from_str("json"));
    r.push(String::from_str("json/generator"));
    r.push(String::from_str("json/parser"));
    r.push(String::from_str("nkf"));
    r.push(String::from_str("objspace"));
    r.push(String::from_str("pathname"));
    r.push(String::from_str("psych"));
    r.push(String::from_str("racc/cparse"));
    r.push(String::from_str("rbconfig/sizeof"));
    r.push(String::from_str("ripper"));
    r.push(String::from_str("stringio"));
    r.push(String::from_str("strscan"));
    r.push(String::from_str("monitor"));
    proof {
        assert(r.deep_view() =~= spec_default_enabled_extensions());
    }
    r
}

} // verus!
