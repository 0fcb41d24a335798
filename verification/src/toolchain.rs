//! Staging the external toolchain: where its archives come from, where they
//! are unpacked, and which fetches a run still needs.

use vstd::prelude::*;
use crate::paths::join_path;
use crate::paths::spec_join_path;
use crate::workspace::Workspace;

verus! {

/// The operating system the pipeline runs on, deciding which SDK archive to
/// fetch.
#[derive(Clone, Copy, Debug, PartialEq, Eq, Structural)]
pub enum HostOs {
    Linux,
    MacOs,
    Windows,
}

/// One archive to fetch and extract (stripping its top-level directory) into
/// a destination directory.
#[derive(Debug)]
pub struct ToolchainFetch {
    pub url: String,
    pub dest: String,
}

/// The mathematical value of a [`ToolchainFetch`].
#[verifier::ext_equal]
pub struct ToolchainFetchView {
    pub url: Seq<char>,
    pub dest: Seq<char>,
}

impl View for ToolchainFetch {
    type V = ToolchainFetchView;

    open spec fn view(&self) -> ToolchainFetchView {
        ToolchainFetchView { url: self.url@, dest: self.dest@ }
    }
}

/// The SDK release archive for one operating system.
pub open spec fn spec_wasi_sdk_tarball(os: HostOs) -> Seq<char> {
    match os {
        HostOs::Linux => "https://github.com/WebAssembly/wasi-sdk/releases/download/wasi-sdk-14/wasi-sdk-14.0-linux.tar.gz"@,
        HostOs::MacOs => "https://github.com/WebAssembly/wasi-sdk/releases/download/wasi-sdk-14/wasi-sdk-14.0-macos.tar.gz"@,
        HostOs::Windows => "https://github.com/WebAssembly/wasi-sdk/releases/download/wasi-sdk-14/wasi-sdk-14.0-mingw.tar.gz"@,
    }
}

fn wasi_sdk_tarball(os: HostOs) -> (r: String)
    ensures
        r@ == spec_wasi_sdk_tarball(os),
{
    match os {
        HostOs::Linux => String::from_str(
            "https://github.com/WebAssembly/wasi-sdk/releases/download/wasi-sdk-14/wasi-sdk-14.0-linux.tar.gz",
        ),
        HostOs::MacOs => String::from_str(
            "https://github.com/WebAssembly/wasi-sdk/releases/download/wasi-sdk-14/wasi-sdk-14.0-macos.tar.gz",
        ),
        HostOs::Windows => String::from_str(
            "https://github.com/WebAssembly/wasi-sdk/releases/download/wasi-sdk-14/wasi-sdk-14.0-mingw.tar.gz",
        ),
    }
}

/// Where the SDK of the pinned version is unpacked.
pub open spec fn spec_wasi_sdk_dest(w: Workspace) -> Seq<char> {
    spec_join_path(spec_join_path(w.dir@, "downloads"@), "wasi-sdk-14.0"@)
}

/// Where the stack-switching support runtime of the pinned version is
/// unpacked.
pub open spec fn spec_rb_wasm_support_dest(w: Workspace) -> Seq<char> {
    spec_join_path(spec_join_path(w.dir@, "downloads"@), "rb-wasm-support-0.4.0"@)
}

/// The release archive of the stack-switching support runtime.
pub open spec fn spec_rb_wasm_support_tarball() -> Seq<char> {
    "https://github.com/kateinoigakukun/rb-wasm-support/releases/download/0.4.0/rb-wasm-support-wasm32-unknown-wasi.tar.gz"@
}

/// Decides which toolchain archives this run still has to fetch.
///
/// Each component lands under the downloads tree in a directory named by its
/// literal version string; a directory that already exists is taken as
/// installed, so each archive is fetched once per workspace.  The surrounding
/// binary performs the fetches, then locates the post-link optimizer on the
/// search path and resolves the two directories into a `cmd::Toolchain`.
pub fn install_build_toolchain(
    workspace: &Workspace,
    os: HostOs,
    wasi_sdk_present: bool,
    rb_wasm_support_present: bool,
) -> (r: (Option<ToolchainFetch>, Option<ToolchainFetch>))
    ensures
        match r.0 {
            Some(f) => !wasi_sdk_present && f.url@ == spec_wasi_sdk_tarball(os) && f.dest@
                == spec_wasi_sdk_dest(*workspace),
            None => wasi_sdk_present,
        },
        match r.1 {
            Some(f) => !rb_wasm_support_present && f.url@ == spec_rb_wasm_support_tarball()
                && f.dest@ == spec_rb_wasm_support_dest(*workspace),
            None => rb_wasm_support_present,
        },
{
    let downloads = workspace.downloads_dir();
    let sdk_fetch = if wasi_sdk_present {
        None
    } else {
        Some(
            ToolchainFetch {
                url: wasi_sdk_tarball(os),
                dest: join_path(downloads.as_str(), "wasi-sdk-14.0"),
            },
        )
    };
    let support_fetch = if rb_wasm_support_present {
        None
    } else {
        Some(
            ToolchainFetch {
                url: String::from_str(
                    "https://github.com/kateinoigakukun/rb-wasm-support/releases/download/0.4.0/rb-wasm-support-wasm32-unknown-wasi.tar.gz",
                ),
                dest: join_path(downloads.as_str(), "rb-wasm-support-0.4.0"),
            },
        )
    };
    (sdk_fetch, support_fetch)
}

} // verus!
