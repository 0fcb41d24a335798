//! The link stage: one linker invocation assembling the installed
//! interpreter binary, the generated auxiliary objects and the bundled
//! support archive into a single module.

use vstd::prelude::*;
use crate::cmd::Cmd;
use crate::cmd::Toolchain;
use crate::cmd::push_all;
use crate::error::Error;
use crate::paths::join_path;
use crate::paths::spec_join_path;
use crate::pipeline::BuildResult;
use crate::strutil::spec_dec;
use crate::strutil::u64_to_dec;

verus! {

/// What the link stage consumes besides the interpreter build: the stack
/// size, the generated auxiliary objects (name and object bytes), and the
/// caller's extra linker arguments.
pub struct LinkerInput {
    pub stack_size: usize,
    pub raw_objects: Vec<(String, Vec<u8>)>,
    pub extra_args: Vec<String>,
}

/// Plans the linker invocation.
///
/// `object_paths` are the files the auxiliary objects of `input` were written
/// to, and `libvfs_path` the file holding the bundled support archive; the
/// caller materializes both as scoped temporaries.  The interpreter binary is
/// found under the install tree at the install prefix, which must be
/// absolute; a relative prefix is refused.
pub fn link_executable(
    toolchain: &Toolchain,
    cruby: &BuildResult,
    input: &LinkerInput,
    output: &str,
    object_paths: &Vec<String>,
    libvfs_path: &str,
) -> (r: Result<Cmd, Error>)
    ensures
        (r is Ok) == (cruby.prefix@.len() > 0 && cruby.prefix@[0] == '/'),
        (r matches Err(e) ==> e == Error::PrefixNotAbsolute),
        (r matches Ok(c) ==> {
            &&& c@.program == spec_join_path(toolchain.wasi_sdk@, "bin/wasm-ld"@)
            &&& c@.args == seq![
                spec_join_path(
                    spec_join_path(
                        cruby.install_dir@,
                        cruby.prefix@.subrange(1, cruby.prefix@.len() as int),
                    ),
                    "bin/ruby"@,
                ),
                "--stack-first"@,
                "-z"@,
                "stack-size="@ + spec_dec(input.stack_size as nat),
                "-o"@,
                output@,
            ] + input.extra_args.deep_view() + object_paths.deep_view() + seq![libvfs_path@]
            &&& c@.cwd is None
            &&& c@.env == Seq::<(Seq<char>, Seq<char>)>::empty()
        }),
{
    let prefix = cruby.prefix.as_str();
    let prefix_len = prefix.unicode_len();
    if prefix_len == 0 || prefix.get_char(0) != '/' {
        return Err(Error::PrefixNotAbsolute);
    }
    let prefix_rest = prefix.substring_char(1, prefix_len);
    let ruby_bin = join_path(
        join_path(cruby.install_dir.as_str(), prefix_rest).as_str(),
        "bin/ruby",
    );
    let mut args: Vec<String> = Vec::new();
    args.push(ruby_bin);
    args.push(String::from_str("--stack-first"));
    args.push(String::from_str("-z"));
    let stack_dec = u64_to_dec(input.stack_size as u64);
    let mut stack_arg = String::from_str("stack-size=");
    stack_arg.append(stack_dec.as_str());
    args.push(stack_arg);
    args.push(String::from_str("-o"));
    args.push(String::from_str(output));
    proof {
        assert(args.deep_view() =~= seq![
            spec_join_path(
                spec_join_path(
                    cruby.install_dir@,
                    cruby.prefix@.subrange(1, cruby.prefix@.len() as int),
                ),
                "bin/ruby"@,
            ),
            "--stack-first"@,
            "-z"@,
            "stack-size="@ + spec_dec(input.stack_size as nat),
            "-o"@,
            output@,
        ]);
    }
    push_all(&mut args, &input.extra_args);
    push_all(&mut args, object_paths);
    let mut last: Vec<String> = Vec::new();
    last.push(String::from_str(libvfs_path));
    proof {
        assert(last.deep_view() =~= seq![libvfs_path@]);
    }
    push_all(&mut args, &last);
    let c = Cmd { program: join_path(toolchain.wasi_sdk.as_str(), "bin/wasm-ld"), args, cwd: None, env: Vec::new() };
    proof {
        assert(c@.env =~= Seq::<(Seq<char>, Seq<char>)>::empty());
    }
    Ok(c)
}

} // verus!
