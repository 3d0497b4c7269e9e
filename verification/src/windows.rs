//! The source build on Windows, where the tree is built by `nmake` from its
//! own makefile.

use crate::config::{Features, Metadata, MetadataView};
use crate::discover::{DirPath, DirPathView};
use crate::text::texts;
use crate::vendored::{
    joined, pairs, plan, BuildEnv, BuildEnvView, BuildStep, Command, CommandView, PlannedStep,
    PlannedStepView,
};
use vstd::prelude::*;
use vstd::string::*;

verus! {

/// Why a source build cannot be made on Windows.
#[derive(Clone, Copy, Debug, PartialEq, Eq, Structural)]
pub enum Refusal {
    /// The build is for another machine than the one that runs it.
    CrossCompilation,
    /// The GSSAPI plugin is asked for.
    Gssapi,
}

impl Refusal {
    /// The text of this refusal.
    pub open spec fn text(self) -> Seq<char> {
        match self {
            Refusal::CrossCompilation => "cross-compilation on a Windows host is not supported"@,
            Refusal::Gssapi => "the \"gssapi-vendored\" feature is not supported on Windows"@,
        }
    }

    /// Writes this refusal for the build's diagnostic stream.
    pub fn message(&self) -> (text: &'static str)
        ensures
            text@ == self.text(),
    {
        match self {
            Refusal::CrossCompilation => "cross-compilation on a Windows host is not supported",
            Refusal::Gssapi => "the \"gssapi-vendored\" feature is not supported on Windows",
        }
    }
}

/// The reason for which a build is refused, if it is: a build for another
/// machine is refused first, then one with the GSSAPI plugin.
pub open spec fn refusal_of(metadata: MetadataView, features: Features) -> Option<Refusal> {
    if metadata.is_cross() {
        Some(Refusal::CrossCompilation)
    } else if features.gssapi_vendored {
        Some(Refusal::Gssapi)
    } else {
        None
    }
}

/// Checks that a source build can be made.
pub fn check_supported(metadata: &Metadata, features: &Features) -> (verdict: Result<(), Refusal>)
    ensures
        verdict is Ok <==> refusal_of(metadata@, *features) is None,
        verdict is Err ==> refusal_of(metadata@, *features) == Some(verdict->Err_0),
{
    if metadata.is_cross() {
        Err(Refusal::CrossCompilation)
    } else if features.gssapi_vendored {
        Err(Refusal::Gssapi)
    } else {
        Ok(())
    }
}

/// The directory below the output directory into which the source tree is
/// copied and in which it is built.
pub fn build_dir(metadata: &Metadata) -> (dir: DirPath)
    ensures
        dir@ == (DirPathView { root: metadata@.out_dir, below: seq!["build"@] }),
{
    crate::discover::dir_below(metadata.out_dir.as_str(), "build")
}

/// The command that copies the source tree, with everything below it.
pub open spec fn copy_command_view(build_dir: Seq<char>) -> CommandView {
    CommandView {
        program: "robocopy"@,
        args: seq!["sasl2"@, build_dir, "/s"@, "/e"@],
        env: Seq::empty(),
    }
}

/// Writes the command that copies the source tree into the build directory.
pub fn copy_command(build_dir: &str) -> (command: Command)
    ensures
        command@ == copy_command_view(build_dir@),
{
    let mut args: Vec<String> = Vec::new();
    args.push(String::from_str("sasl2"));
    args.push(String::from_str(build_dir));
    args.push(String::from_str("/s"));
    args.push(String::from_str("/e"));
    let env: Vec<(String, String)> = Vec::new();
    assert(texts(args@) =~= seq!["sasl2"@, build_dir@, "/s"@, "/e"@]);
    assert(pairs(env@) =~= Seq::<(Seq<char>, Seq<char>)>::empty());
    Command { program: String::from_str("robocopy"), args, env }
}

/// Whether an exit code of the copy reports success: the codes from 0 to 7
/// do; no code at all does not.
pub open spec fn copy_ok(code: Option<i32>) -> bool {
    code is Some && 0 <= code->0 <= 7
}

/// Decides whether the copy succeeded.
pub fn copy_succeeded(code: Option<i32>) -> (ok: bool)
    ensures
        ok == copy_ok(code),
{
    match code {
        Some(c) => 0 <= c && c <= 7,
        None => false,
    }
}

/// The arguments that point the build at a bundled OpenSSL, where OpenSSL is
/// linked through its own bindings and one was built.
pub open spec fn openssl_arg_texts(env: BuildEnvView, features: Features) -> Seq<Seq<char>> {
    if features.openssl_sys && env.openssl is Some {
        seq![
            "OPENSSL_INCLUDE="@ + env.openssl->0.include_dir,
            "OPENSSL_LIBPATH="@ + env.openssl->0.lib_dir,
        ]
    } else {
        Seq::empty()
    }
}

/// The arguments that build a plugin into the library, for each plugin whose
/// toggle is set.
pub open spec fn plugin_arg_texts(features: Features) -> Seq<Seq<char>> {
    (if features.plain {
        seq!["STATIC_PLAIN=1"@]
    } else {
        Seq::empty()
    }) + (if features.scram {
        seq!["STATIC_SCRAM=1"@]
    } else {
        Seq::empty()
    })
}

/// The arguments of a run of the build tool: the makefile, the private
/// prefix, the plugins, the bundled OpenSSL, and `install` for the run that
/// installs.
pub open spec fn nmake_arg_texts(
    install_dir: Seq<char>,
    env: BuildEnvView,
    features: Features,
    install: bool,
) -> Seq<Seq<char>> {
    seq!["/f"@, "NTMakefile"@, "prefix="@ + install_dir] + plugin_arg_texts(features)
        + openssl_arg_texts(env, features) + (if install {
        seq!["install"@]
    } else {
        Seq::empty()
    })
}

/// The command of a run of the build tool.
pub open spec fn nmake_command_view(
    install_dir: Seq<char>,
    env: BuildEnvView,
    features: Features,
    install: bool,
) -> CommandView {
    CommandView {
        program: "nmake"@,
        args: nmake_arg_texts(install_dir, env, features, install),
        env: Seq::empty(),
    }
}

/// Writes the command of a run of the build tool: the run that builds, or,
/// with `install`, the run that installs.
pub fn nmake_command(install_dir: &str, env: &BuildEnv, features: &Features, install: bool) -> (command:
    Command)
    ensures
        command@ == nmake_command_view(install_dir@, env@, *features, install),
{
    let mut args: Vec<String> = Vec::new();
    args.push(String::from_str("/f"));
    args.push(String::from_str("NTMakefile"));
    args.push(joined("prefix=", install_dir));
    assert(texts(args@) =~= seq!["/f"@, "NTMakefile"@, "prefix="@ + install_dir@]);
    let ghost fixed = texts(args@);
    if features.plain {
        args.push(String::from_str("STATIC_PLAIN=1"));
    }
    if features.scram {
        args.push(String::from_str("STATIC_SCRAM=1"));
    }
    assert(texts(args@) =~= fixed + plugin_arg_texts(*features));
    let ghost with_plugins = texts(args@);
    if features.openssl_sys {
        if let Some(dirs) = &env.openssl {
            args.push(joined("OPENSSL_INCLUDE=", dirs.include_dir.as_str()));
            args.push(joined("OPENSSL_LIBPATH=", dirs.lib_dir.as_str()));
        }
    }
    assert(texts(args@) =~= with_plugins + openssl_arg_texts(env@, *features));
    if install {
        args.push(String::from_str("install"));
    }
    assert(texts(args@) =~= nmake_arg_texts(install_dir@, env@, *features, install));
    let vars: Vec<(String, String)> = Vec::new();
    assert(pairs(vars@) =~= Seq::<(Seq<char>, Seq<char>)>::empty());
    Command { program: String::from_str("nmake"), args, env: vars }
}

/// What is run in the copied tree, in order: the build tool to build, then
/// the build tool to install, both in the tree itself. The second runs only
/// after the first has succeeded.
pub open spec fn windows_plan_view(
    install_dir: Seq<char>,
    env: BuildEnvView,
    features: Features,
) -> Seq<PlannedStepView> {
    seq![
        PlannedStepView {
            step: BuildStep::Make,
            command: nmake_command_view(install_dir, env, features, false),
            below: Seq::empty(),
        },
        PlannedStepView {
            step: BuildStep::Install,
            command: nmake_command_view(install_dir, env, features, true),
            below: Seq::empty(),
        },
    ]
}

/// Plans what is run in the copied tree. `install_dir` is the private
/// prefix.
pub fn windows_plan(install_dir: &str, env: &BuildEnv, features: &Features) -> (steps: Vec<
    PlannedStep,
>)
    ensures
        plan(steps@) == windows_plan_view(install_dir@, env@, *features),
{
    let here: Vec<String> = Vec::new();
    let there: Vec<String> = Vec::new();
    assert(texts(here@) =~= Seq::<Seq<char>>::empty());
    assert(texts(there@) =~= Seq::<Seq<char>>::empty());
    let build = PlannedStep {
        step: BuildStep::Make,
        command: nmake_command(install_dir, env, features, false),
        below: here,
    };
    let install = PlannedStep {
        step: BuildStep::Install,
        command: nmake_command(install_dir, env, features, true),
        below: there,
    };
    let mut steps: Vec<PlannedStep> = Vec::new();
    steps.push(build);
    steps.push(install);
    assert(plan(steps@) =~= windows_plan_view(install_dir@, env@, *features));
    steps
}

} // verus!
