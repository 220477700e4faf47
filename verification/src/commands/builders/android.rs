//! The Android build: the tool to call, and the patches to two files that
//! the tool generates.

use crate::cmds::cmd::{Cmd, CmdView};
use crate::text::{copy_range, join, joined, lines_of, lines_spec, replace_char, replaced, texts};
use vstd::prelude::*;

verus! {

/// The label under which the run of the tool is shown.
pub open spec fn ubrn_label_spec(unpatched: bool) -> Seq<char> {
    if unpatched {
        "building with ubrn (unpatched)"@
    } else {
        "building with ubrn (patched)"@
    }
}

/// The command that builds and generates the bindings.
pub open spec fn ubrn_command_spec(unpatched: bool) -> CmdView {
    if unpatched {
        CmdView {
            program: "yarn"@,
            args: seq!["ubrn"@, "build"@, "android"@, "--and-generate"@],
            env: Seq::empty(),
            cwd: None,
        }
    } else {
        CmdView {
            program: "uniffi-bindgen-react-native"@,
            args: seq!["build"@, "android"@, "--and-generate"@],
            env: Seq::empty(),
            cwd: None,
        }
    }
}

/// The label under which the run of the tool is shown.
pub fn ubrn_label(unpatched: bool) -> (r: &'static str)
    ensures
        r@ == ubrn_label_spec(unpatched),
{
    if unpatched {
        "building with ubrn (unpatched)"
    } else {
        "building with ubrn (patched)"
    }
}

/// The command that builds and generates the bindings: the tool as the
/// project's package manager runs it where `unpatched` is set, else the
/// tool on the search path.
pub fn ubrn_command(unpatched: bool) -> (r: Cmd)
    ensures
        r@ == ubrn_command_spec(unpatched),
{
    if unpatched {
        let r = Cmd::new("yarn").arg("ubrn").arg("build").arg("android").arg("--and-generate");
        proof {
            assert(r@.args =~= seq!["ubrn"@, "build"@, "android"@, "--and-generate"@]);
        }
        r
    } else {
        let r = Cmd::new("uniffi-bindgen-react-native").arg("build").arg("android").arg(
            "--and-generate",
        );
        proof {
            assert(r@.args =~= seq!["build"@, "android"@, "--and-generate"@]);
        }
        r
    }
}

/// The build file with every backslash replaced by a slash.
pub fn patch_cmake(content: &str) -> (r: String)
    ensures
        r@ == replaced(content@, '\\', '/'),
{
    replace_char(content, '\\', '/')
}

/// The line that the patched adapter starts with.
pub const CPP_ADAPTER_HEAD: &'static str = "#include <fbjni/fbjni.h>\n";

/// The number of lines of the generated adapter that are kept at its top.
pub const CPP_ADAPTER_KEPT: usize = 26;

/// The line of the generated adapter from which on all is kept again.
pub const CPP_ADAPTER_RESUME: usize = 55;

/// What stands in the patched adapter in place of the lines left out.
pub const CPP_ADAPTER_MAIN_PATCH: &'static str = "
    try {
        if (callInvokerHolderJavaObj == nullptr) {
            return false;
        }

        auto alias = facebook::jni::alias_ref<jobject>(callInvokerHolderJavaObj);
        auto holder = facebook::jni::static_ref_cast<facebook::react::CallInvokerHolder::javaobject>(alias);
        if (!holder) {
            return false;
        }

        auto jsCallInvoker = holder->cthis()->getCallInvoker();
        if (!jsCallInvoker) {
            return false;
        }

        auto runtime = reinterpret_cast<jsi::Runtime *>(rtPtr);
        return {{ ns }}::installRustCrate(*runtime, jsCallInvoker);
    } catch (...) {
        return false;
    }
";

/// The patched adapter, given the lines of the generated one: the head
/// line, the lines kept at the top, the replacement, and the lines from
/// the resuming line on.
pub open spec fn patched_adapter(lines: Seq<Seq<char>>) -> Seq<char> {
    CPP_ADAPTER_HEAD@ + joined(lines.take(CPP_ADAPTER_KEPT as int), seq!['\n'])
        + CPP_ADAPTER_MAIN_PATCH@ + joined(lines.skip(CPP_ADAPTER_RESUME as int), seq!['\n'])
}

/// The patched adapter, given the lines of the generated one.
pub fn patch_cpp_adapter_lines(lines: &Vec<String>) -> (r: String)
    requires
        lines.len() >= CPP_ADAPTER_RESUME,
    ensures
        r@ == patched_adapter(texts(lines@)),
{
    proof {
        reveal_strlit("\n");
        assert("\n"@ =~= seq!['\n']);
        assert(texts(lines@).take(CPP_ADAPTER_KEPT as int) =~= texts(lines@).subrange(
            0,
            CPP_ADAPTER_KEPT as int,
        ));
        assert(texts(lines@).skip(CPP_ADAPTER_RESUME as int) =~= texts(lines@).subrange(
            CPP_ADAPTER_RESUME as int,
            lines.len() as int,
        ));
    }
    let top = copy_range(lines, 0, CPP_ADAPTER_KEPT);
    let rest = copy_range(lines, CPP_ADAPTER_RESUME, lines.len());
    let mut out = String::from_str(CPP_ADAPTER_HEAD);
    out.append(join(&top, "\n").as_str());
    out.append(CPP_ADAPTER_MAIN_PATCH);
    out.append(join(&rest, "\n").as_str());
    out
}

/// The patched adapter, given the text of the generated one; `None` where
/// that text is too short to be the generated adapter.
pub fn patch_cpp_adapter(content: &str) -> (r: Option<String>)
    ensures
        match r {
            Some(patched) => lines_spec(content@).len() >= CPP_ADAPTER_RESUME && patched@
                == patched_adapter(lines_spec(content@)),
            None => lines_spec(content@).len() < CPP_ADAPTER_RESUME,
        },
{
    let lines = lines_of(content);
    if lines.len() >= CPP_ADAPTER_RESUME {
        Some(patch_cpp_adapter_lines(&lines))
    } else {
        None
    }
}

} // verus!
