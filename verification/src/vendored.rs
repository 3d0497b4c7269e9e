//! The source build: how the bundled tree is staged, configured, compiled
//! and installed, and what the outer build is told afterwards.
//!
//! Nothing here runs a tool. Each function says which command a step runs
//! and with which arguments; the caller runs it and stops the build at the
//! first step that fails.

use crate::config::{text_of, Features, Metadata, MetadataView, Platform, Variable};
use crate::discover::{DirPath, DirPathView};
use crate::link::{
    link_directive, link_directive_text, library_name, library_name_text, search_directive,
    search_directive_text, LinkKind,
};
use crate::text::{contains, occurs_in, texts};
use vstd::prelude::*;
use vstd::string::*;

verus! {

/// The directory that holds the bundled source tree.
pub const SOURCE_TREE: &'static str = "sasl2";

/// The configuration script of the source tree.
pub const CONFIGURE_SCRIPT: &'static str = "configure";

/// What a list of pairs of strings holds: the characters of each.
pub open spec fn pairs(list: Seq<(String, String)>) -> Seq<(Seq<char>, Seq<char>)> {
    list.map_values(|p: (String, String)| (p.0@, p.1@))
}

/// A command for the caller to run.
#[derive(Clone, Debug, PartialEq, Eq)]
pub struct Command {
    /// The program to run.
    pub program: String,
    /// Its arguments, in order.
    pub args: Vec<String>,
    /// Variables to set in its environment, as pairs of name and value.
    pub env: Vec<(String, String)>,
}

/// The mathematical content of a [`Command`].
pub struct CommandView {
    pub program: Seq<char>,
    pub args: Seq<Seq<char>>,
    pub env: Seq<(Seq<char>, Seq<char>)>,
}

impl View for Command {
    type V = CommandView;

    open spec fn view(&self) -> CommandView {
        CommandView { program: self.program@, args: texts(self.args@), env: pairs(self.env@) }
    }
}

/// The steps of a source build, in the order in which they run. Each is
/// fatal when it fails.
#[derive(Clone, Copy, Debug, PartialEq, Eq, Structural)]
pub enum BuildStep {
    Stage,
    Configure,
    Make,
    Install,
}

/// The directories of a bundled OpenSSL, below the root that its build names.
#[derive(Clone, Debug, PartialEq, Eq)]
pub struct OpensslDirs {
    /// The directory that holds its headers.
    pub include_dir: String,
    /// The directory that holds its libraries.
    pub lib_dir: String,
}

/// The mathematical content of an [`OpensslDirs`].
pub struct OpensslDirsView {
    pub include_dir: Seq<char>,
    pub lib_dir: Seq<char>,
}

impl View for OpensslDirs {
    type V = OpensslDirsView;

    open spec fn view(&self) -> OpensslDirsView {
        OpensslDirsView { include_dir: self.include_dir@, lib_dir: self.lib_dir@ }
    }
}

/// What the environment holds for a source build. Paths are given the way
/// they are written on a command line.
#[derive(Clone, Debug, PartialEq, Eq)]
pub struct BuildEnv {
    /// Preprocessor flags to start from.
    pub cppflags: Option<String>,
    /// Compiler flags to start from.
    pub cflags: Option<String>,
    /// The directories of a bundled OpenSSL, where one was built.
    pub openssl: Option<OpensslDirs>,
    /// The root of a bundled Kerberos, where one was built.
    pub krb5_root: Option<String>,
    /// The number of jobs that the outer build allows.
    pub num_jobs: Option<String>,
    /// The flags by which the outer build shares its job server.
    pub makeflags: Option<String>,
    /// The C compiler.
    pub compiler: String,
}

/// The mathematical content of a [`BuildEnv`].
pub struct BuildEnvView {
    pub cppflags: Option<Seq<char>>,
    pub cflags: Option<Seq<char>>,
    pub openssl: Option<OpensslDirsView>,
    pub krb5_root: Option<Seq<char>>,
    pub num_jobs: Option<Seq<char>>,
    pub makeflags: Option<Seq<char>>,
    pub compiler: Seq<char>,
}

impl View for BuildEnv {
    type V = BuildEnvView;

    open spec fn view(&self) -> BuildEnvView {
        BuildEnvView {
            cppflags: text_of(self.cppflags),
            cflags: text_of(self.cflags),
            openssl: match self.openssl {
                Some(dirs) => Some(dirs@),
                None => None,
            },
            krb5_root: text_of(self.krb5_root),
            num_jobs: text_of(self.num_jobs),
            makeflags: text_of(self.makeflags),
            compiler: self.compiler@,
        }
    }
}

/// A text that may be absent, with the empty text in its place.
pub open spec fn or_empty(value: Option<Seq<char>>) -> Seq<char> {
    match value {
        Some(v) => v,
        None => Seq::empty(),
    }
}

/// A copy of a text that may be absent, with the empty text in its place.
pub fn text_or_empty(value: &Option<String>) -> (text: String)
    ensures
        text@ == or_empty(text_of(*value)),
{
    match value {
        Some(v) => v.clone(),
        None => String::new(),
    }
}

/// The directory below the output directory into which the source tree is
/// copied, so that nothing is ever built in the shared checkout.
pub fn staging_dir(metadata: &Metadata) -> (dir: DirPath)
    ensures
        dir@ == (DirPathView { root: metadata@.out_dir, below: seq!["sasl2"@] }),
{
    crate::discover::dir_below(metadata.out_dir.as_str(), "sasl2")
}

/// The private prefix below the output directory into which the library is
/// installed.
pub fn install_dir(metadata: &Metadata) -> (dir: DirPath)
    ensures
        dir@ == (DirPathView { root: metadata@.out_dir, below: seq!["install"@] }),
{
    crate::discover::dir_below(metadata.out_dir.as_str(), "install")
}

/// Whether the staging step has to copy: only where no staged tree is there.
pub open spec fn copies(staged: bool) -> bool {
    !staged
}

/// The command by which the staging step copies the tree.
pub open spec fn staging_command_view(staging_dir: Seq<char>) -> CommandView {
    CommandView {
        program: "cp"@,
        args: seq!["-R"@, "sasl2"@, staging_dir],
        env: Seq::empty(),
    }
}

/// The staging step: the command that copies the source tree into the
/// staging directory, or nothing where a staged tree is already there.
pub fn staging_command(staged: bool, staging_dir: &str) -> (command: Option<Command>)
    ensures
        command is Some == copies(staged),
        command is Some ==> command->0@ == staging_command_view(staging_dir@),
{
    if staged {
        return None;
    }
    let mut args: Vec<String> = Vec::new();
    args.push(String::from_str("-R"));
    args.push(String::from_str("sasl2"));
    args.push(String::from_str(staging_dir));
    let env: Vec<(String, String)> = Vec::new();
    assert(texts(args@) =~= seq!["-R"@, "sasl2"@, staging_dir@]);
    assert(pairs(env@) =~= Seq::<(Seq<char>, Seq<char>)>::empty());
    Some(Command { program: String::from_str("cp"), args, env })
}

/// Whether a staged tree is there once the staging step has run: it is,
/// whether the step copied it or found it.
pub open spec fn staged_after(staged_before: bool) -> bool {
    staged_before || copies(staged_before)
}

/// Staging is idempotent: once the step has run, the tree is there, and a
/// second run copies nothing.
pub proof fn lemma_staging_is_idempotent(staged_before: bool)
    ensures
        staged_after(staged_before),
        !copies(staged_after(staged_before)),
        !copies(true),
{
}

/// The preprocessor flags: those of the environment, and after them the
/// header directory of a bundled OpenSSL where OpenSSL is linked through its
/// own bindings.
pub open spec fn cpp_flags_text(env: BuildEnvView, features: Features) -> Seq<char> {
    if features.openssl_sys && env.openssl is Some {
        or_empty(env.cppflags) + " -I"@ + env.openssl->0.include_dir
    } else {
        or_empty(env.cppflags)
    }
}

/// The compiler flags: those of the environment, and after them the request
/// for position-independent code.
pub open spec fn c_flags_text(env: BuildEnvView) -> Seq<char> {
    or_empty(env.cflags) + " -fPIC"@
}

/// Writes the preprocessor flags.
pub fn cpp_flags(env: &BuildEnv, features: &Features) -> (flags: String)
    ensures
        flags@ == cpp_flags_text(env@, *features),
{
    let mut flags = text_or_empty(&env.cppflags);
    if features.openssl_sys {
        if let Some(dirs) = &env.openssl {
            flags.append(" -I");
            flags.append(dirs.include_dir.as_str());
        }
    }
    flags
}

/// Writes the compiler flags.
pub fn c_flags(env: &BuildEnv) -> (flags: String)
    ensures
        flags@ == c_flags_text(env@),
{
    let mut flags = text_or_empty(&env.cflags);
    flags.append(" -fPIC");
    flags
}

/// Whether a triple names one of the BSD systems.
pub open spec fn bsd_triple(host: Seq<char>) -> bool {
    ||| occurs_in(host, "dragonflybsd"@)
    ||| occurs_in(host, "freebsd"@)
    ||| occurs_in(host, "netbsd"@)
    ||| occurs_in(host, "openbsd"@)
}

/// Decides whether a triple names one of the BSD systems.
pub fn is_bsd(host: &str) -> (bsd: bool)
    ensures
        bsd == bsd_triple(host@),
{
    contains(host, "dragonflybsd") || contains(host, "freebsd") || contains(host, "netbsd")
        || contains(host, "openbsd")
}

/// The name of the build tool on a host: GNU make goes by `gmake` on the
/// BSD systems and by `make` elsewhere.
pub open spec fn make_program_text(host: Seq<char>) -> Seq<char> {
    if bsd_triple(host) {
        "gmake"@
    } else {
        "make"@
    }
}

/// The name of the build tool on a host.
pub fn make_program(host: &str) -> (program: &'static str)
    ensures
        program@ == make_program_text(host@),
{
    if is_bsd(host) {
        "gmake"
    } else {
        "make"
    }
}

/// The switch for the GSSAPI plugin: built against the bundled Kerberos
/// where its toggle is set, switched off otherwise.
pub open spec fn gssapi_switch(env: BuildEnvView, features: Features) -> Seq<char> {
    if features.gssapi_vendored {
        "--enable-gssapi="@ + or_empty(env.krb5_root)
    } else {
        "--disable-gssapi"@
    }
}

/// The switch for the PLAIN plugin.
pub open spec fn plain_switch(features: Features) -> Seq<char> {
    if features.plain {
        "--enable-plain"@
    } else {
        "--disable-plain"@
    }
}

/// The switch for the SCRAM plugin.
pub open spec fn scram_switch(features: Features) -> Seq<char> {
    if features.scram {
        "--enable-scram"@
    } else {
        "--disable-scram"@
    }
}

/// The arguments that every configuration has: the private prefix, a static
/// library only, every optional mechanism off but the plugins whose toggles
/// are set, position-independent code, and the flags and the compiler.
pub open spec fn base_configure_args(
    install_dir: Seq<char>,
    env: BuildEnvView,
    features: Features,
) -> Seq<Seq<char>> {
    seq![
        "--prefix="@ + install_dir,
        "--enable-static"@,
        "--disable-shared"@,
        "--disable-sample"@,
        "--disable-checkapop"@,
        "--disable-cram"@,
        "--disable-scram"@,
        "--disable-digest"@,
        "--disable-otp"@,
        gssapi_switch(env, features),
        plain_switch(features),
        scram_switch(features),
        "--disable-anon"@,
        "--with-dblib=none"@,
        "--with-pic"@,
        "CPPFLAGS="@ + cpp_flags_text(env, features),
        "CFLAGS="@ + c_flags_text(env),
        "CC="@ + env.compiler,
    ]
}

/// The argument that a Darwin target adds.
pub open spec fn darwin_configure_args(metadata: MetadataView) -> Seq<Seq<char>> {
    if occurs_in(metadata.target, "darwin"@) {
        seq!["--disable-macos-framework"@]
    } else {
        Seq::empty()
    }
}

/// The arguments that a build for another machine adds: the machine that
/// builds and the machine that is built for.
pub open spec fn cross_configure_args(metadata: MetadataView) -> Seq<Seq<char>> {
    if metadata.is_cross() {
        seq!["--build="@ + metadata.host, "--host="@ + metadata.target]
    } else {
        Seq::empty()
    }
}

/// All arguments of the configuration, in order.
pub open spec fn configure_arg_texts(
    install_dir: Seq<char>,
    env: BuildEnvView,
    features: Features,
    metadata: MetadataView,
) -> Seq<Seq<char>> {
    base_configure_args(install_dir, env, features) + darwin_configure_args(metadata)
        + cross_configure_args(metadata)
}

/// Whether the configuration cannot be written: the GSSAPI plugin is asked
/// for and the environment names no bundled Kerberos.
pub open spec fn lacks_kerberos(env: BuildEnvView, features: Features) -> bool {
    features.gssapi_vendored && env.krb5_root is None
}

/// A text made of two parts.
pub fn joined(head: &str, tail: &str) -> (text: String)
    ensures
        text@ == head@ + tail@,
{
    let mut text = String::from_str(head);
    text.append(tail);
    text
}

/// Writes the arguments of the configuration. Fails where the GSSAPI plugin
/// is asked for and the environment names no bundled Kerberos.
pub fn configure_args(
    install_dir: &str,
    env: &BuildEnv,
    features: &Features,
    metadata: &Metadata,
) -> (args: Result<Vec<String>, Variable>)
    ensures
        args is Err <==> lacks_kerberos(env@, *features),
        args is Err ==> args->Err_0 == Variable::Krb5SrcRoot,
        args is Ok ==> texts(args->Ok_0@) == configure_arg_texts(
            install_dir@,
            env@,
            *features,
            metadata@,
        ),
{
    let gssapi = if features.gssapi_vendored {
        match &env.krb5_root {
            Some(root) => joined("--enable-gssapi=", root.as_str()),
            None => { return Err(Variable::Krb5SrcRoot); },
        }
    } else {
        String::from_str("--disable-gssapi")
    };
    let plain = if features.plain {
        "--enable-plain"
    } else {
        "--disable-plain"
    };
    let scram = if features.scram {
        "--enable-scram"
    } else {
        "--disable-scram"
    };
    let mut args: Vec<String> = Vec::new();
    args.push(joined("--prefix=", install_dir));
    args.push(String::from_str("--enable-static"));
    args.push(String::from_str("--disable-shared"));
    args.push(String::from_str("--disable-sample"));
    args.push(String::from_str("--disable-checkapop"));
    args.push(String::from_str("--disable-cram"));
    args.push(String::from_str("--disable-scram"));
    args.push(String::from_str("--disable-digest"));
    args.push(String::from_str("--disable-otp"));
    args.push(gssapi);
    args.push(String::from_str(plain));
    args.push(String::from_str(scram));
    args.push(String::from_str("--disable-anon"));
    args.push(String::from_str("--with-dblib=none"));
    args.push(String::from_str("--with-pic"));
    args.push(joined("CPPFLAGS=", cpp_flags(env, features).as_str()));
    args.push(joined("CFLAGS=", c_flags(env).as_str()));
    args.push(joined("CC=", env.compiler.as_str()));
    assert(texts(args@) =~= base_configure_args(install_dir@, env@, *features));
    let ghost base = texts(args@);
    if contains(metadata.target.as_str(), "darwin") {
        args.push(String::from_str("--disable-macos-framework"));
    }
    assert(texts(args@) =~= base + darwin_configure_args(metadata@));
    let ghost middle = texts(args@);
    if metadata.is_cross() {
        args.push(joined("--build=", metadata.host.as_str()));
        args.push(joined("--host=", metadata.target.as_str()));
    }
    assert(texts(args@) =~= middle + cross_configure_args(metadata@));
    Ok(args)
}

/// A text that differs from a pattern at one position of the pattern does
/// not begin with it.
pub proof fn lemma_differs_so_no_prefix(text: Seq<char>, pattern: Seq<char>, at: int)
    requires
        0 <= at < pattern.len(),
        at < text.len() ==> text[at] != pattern[at],
    ensures
        !pattern.is_prefix_of(text),
{
    if pattern.len() <= text.len() {
        assert(text.subrange(0, pattern.len() as int)[at] == text[at]);
    }
}

/// With no plugin toggle set, the configuration switches every plugin off:
/// the three plugin switches are the disabling ones, and the only argument
/// that enables anything is the one that asks for a static library.
pub proof fn lemma_plugins_off_without_toggles(
    install_dir: Seq<char>,
    env: BuildEnvView,
    features: Features,
    metadata: MetadataView,
)
    requires
        !features.gssapi_vendored,
        !features.plain,
        !features.scram,
    ensures
        configure_arg_texts(install_dir, env, features, metadata)[9] == "--disable-gssapi"@,
        configure_arg_texts(install_dir, env, features, metadata)[10] == "--disable-plain"@,
        configure_arg_texts(install_dir, env, features, metadata)[11] == "--disable-scram"@,
        forall|i: int|
            0 <= i < configure_arg_texts(install_dir, env, features, metadata).len()
                && "--enable-"@.is_prefix_of(
                #[trigger] configure_arg_texts(install_dir, env, features, metadata)[i],
            ) ==> i == 1,
{
    let args = configure_arg_texts(install_dir, env, features, metadata);
    let base = base_configure_args(install_dir, env, features);
    let darwin = darwin_configure_args(metadata);
    let cross = cross_configure_args(metadata);
    let enable = "--enable-"@;
    reveal_strlit("--enable-");
    reveal_strlit("--prefix=");
    reveal_strlit("--disable-shared");
    reveal_strlit("--disable-sample");
    reveal_strlit("--disable-checkapop");
    reveal_strlit("--disable-cram");
    reveal_strlit("--disable-scram");
    reveal_strlit("--disable-digest");
    reveal_strlit("--disable-otp");
    reveal_strlit("--disable-gssapi");
    reveal_strlit("--disable-plain");
    reveal_strlit("--disable-anon");
    reveal_strlit("--with-dblib=none");
    reveal_strlit("--with-pic");
    reveal_strlit("CPPFLAGS=");
    reveal_strlit("CFLAGS=");
    reveal_strlit("CC=");
    reveal_strlit("--disable-macos-framework");
    reveal_strlit("--build=");
    reveal_strlit("--host=");
    assert forall|i: int| 0 <= i < args.len() && i != 1 implies !enable.is_prefix_of(
        #[trigger] args[i],
    ) by {
        if i < 18 {
            assert(args[i] == base[i]);
            if i == 15 || i == 16 || i == 17 {
                lemma_differs_so_no_prefix(args[i], enable, 0);
            } else {
                lemma_differs_so_no_prefix(args[i], enable, 2);
            }
        } else if i < 18 + darwin.len() {
            assert(args[i] == darwin[i - 18]);
            lemma_differs_so_no_prefix(args[i], enable, 2);
        } else {
            assert(args[i] == cross[i - 18 - darwin.len()]);
            lemma_differs_so_no_prefix(args[i], enable, 2);
        }
    }
}

/// The variables that the configuration runs with. A build for another
/// machine cannot run the check for SPNEGO support, so the answer is given.
pub open spec fn configure_env_view(metadata: MetadataView) -> Seq<(Seq<char>, Seq<char>)> {
    if metadata.is_cross() {
        seq![("ac_cv_gssapi_supports_spnego"@, "yes"@)]
    } else {
        Seq::empty()
    }
}

/// The command that configures the staged tree.
pub open spec fn configure_command_view(
    program: Seq<char>,
    install_dir: Seq<char>,
    env: BuildEnvView,
    features: Features,
    metadata: MetadataView,
) -> CommandView {
    CommandView {
        program,
        args: configure_arg_texts(install_dir, env, features, metadata),
        env: configure_env_view(metadata),
    }
}

/// Writes the command that configures the staged tree. `program` is the
/// configuration script of that tree. Fails where the GSSAPI plugin is asked
/// for and the environment names no bundled Kerberos.
pub fn configure_command(
    program: &str,
    install_dir: &str,
    env: &BuildEnv,
    features: &Features,
    metadata: &Metadata,
) -> (command: Result<Command, Variable>)
    ensures
        command is Err <==> lacks_kerberos(env@, *features),
        command is Err ==> command->Err_0 == Variable::Krb5SrcRoot,
        command is Ok ==> command->Ok_0@ == configure_command_view(
            program@,
            install_dir@,
            env@,
            *features,
            metadata@,
        ),
{
    let args = match configure_args(install_dir, env, features, metadata) {
        Ok(args) => args,
        Err(missing) => { return Err(missing); },
    };
    let mut vars: Vec<(String, String)> = Vec::new();
    if metadata.is_cross() {
        vars.push((String::from_str("ac_cv_gssapi_supports_spnego"), String::from_str("yes")));
    }
    assert(pairs(vars@) =~= configure_env_view(metadata@));
    Ok(Command { program: String::from_str(program), args, env: vars })
}

/// How the build tool is told how much it may do at once.
#[derive(Clone, Debug, PartialEq, Eq)]
pub struct Parallelism {
    /// The flags that share the job server of the outer build; empty where
    /// it is not shared.
    pub make_flags: String,
    /// The arguments that give an explicit number of jobs; empty where the
    /// job server is shared or no number is known.
    pub job_args: Vec<String>,
}

/// The mathematical content of a [`Parallelism`].
pub struct ParallelismView {
    pub make_flags: Seq<char>,
    pub job_args: Seq<Seq<char>>,
}

impl View for Parallelism {
    type V = ParallelismView;

    open spec fn view(&self) -> ParallelismView {
        ParallelismView { make_flags: self.make_flags@, job_args: texts(self.job_args@) }
    }
}

/// The hint for the build tool. Without a number of jobs there is none. With
/// one, the job server of the outer build is shared where its flags are
/// known and the platform's build tool understands them; otherwise the
/// number is given outright.
pub open spec fn parallelism_of(env: BuildEnvView, platform: Platform) -> ParallelismView {
    if env.num_jobs is None {
        ParallelismView { make_flags: Seq::empty(), job_args: Seq::empty() }
    } else if env.makeflags is Some && platform != Platform::Windows {
        ParallelismView { make_flags: env.makeflags->0, job_args: Seq::empty() }
    } else {
        ParallelismView { make_flags: Seq::empty(), job_args: seq!["-j"@ + env.num_jobs->0] }
    }
}

/// Works out the hint for the build tool.
pub fn parallelism(env: &BuildEnv, platform: Platform) -> (hint: Parallelism)
    ensures
        hint@ == parallelism_of(env@, platform),
{
    let mut make_flags = String::new();
    let mut job_args: Vec<String> = Vec::new();
    if let Some(jobs) = &env.num_jobs {
        let shared = match platform {
            Platform::Windows => false,
            Platform::Unix => env.makeflags.is_some(),
        };
        if shared {
            make_flags = text_or_empty(&env.makeflags);
        } else {
            job_args.push(joined("-j", jobs.as_str()));
        }
    }
    assert(texts(job_args@) =~= parallelism_of(env@, platform).job_args);
    Parallelism { make_flags, job_args }
}

/// The directories of the staged tree in which the build tool runs, in the
/// order in which it runs: the shared headers and the common code come
/// before the library, which needs both.
pub open spec fn build_order_texts() -> Seq<Seq<char>> {
    seq!["include"@, "common"@, "lib"@]
}

/// The directories of the staged tree in which the build tool runs, in
/// order.
pub fn build_order() -> (dirs: Vec<String>)
    ensures
        texts(dirs@) == build_order_texts(),
{
    let mut dirs: Vec<String> = Vec::new();
    dirs.push(String::from_str("include"));
    dirs.push(String::from_str("common"));
    dirs.push(String::from_str("lib"));
    assert(texts(dirs@) =~= build_order_texts());
    dirs
}

/// The command that builds and installs one directory of the staged tree:
/// the build tool of the host, an explicit number of jobs where one is
/// given, and the job server's flags in the environment.
pub open spec fn make_command_view(host: Seq<char>, hint: ParallelismView) -> CommandView {
    CommandView {
        program: make_program_text(host),
        args: hint.job_args + seq!["install"@],
        env: seq![("MAKEFLAGS"@, hint.make_flags)],
    }
}

/// Writes the command that builds and installs one directory of the staged
/// tree.
pub fn make_command(host: &str, hint: &Parallelism) -> (command: Command)
    ensures
        command@ == make_command_view(host@, hint@),
{
    let mut args: Vec<String> = hint.job_args.clone();
    assert(texts(args@) =~= texts(hint.job_args@)) by {
        assert(args@ =~= hint.job_args@);
    }
    args.push(String::from_str("install"));
    let mut vars: Vec<(String, String)> = Vec::new();
    vars.push((String::from_str("MAKEFLAGS"), hint.make_flags.clone()));
    assert(texts(args@) =~= hint@.job_args + seq!["install"@]);
    assert(pairs(vars@) =~= seq![("MAKEFLAGS"@, hint@.make_flags)]);
    Command { program: String::from_str(make_program(host)), args, env: vars }
}

/// The directive that tells dependent builds where the library is installed.
pub open spec fn root_directive_text(install_dir: Seq<char>) -> Seq<char> {
    "cargo:root="@ + install_dir
}

/// The directives that every source build ends with: the search path, the
/// library, linked statically, and the installation root.
pub open spec fn library_directive_texts(
    platform: Platform,
    install_lib_dir: Seq<char>,
    install_dir: Seq<char>,
) -> Seq<Seq<char>> {
    seq![
        search_directive_text(install_lib_dir),
        link_directive_text(LinkKind::Static, library_name_text(platform)),
        root_directive_text(install_dir),
    ]
}

/// Whether the resolver library is linked beside Kerberos: not on the BSD
/// systems, which have it in their C library, and not when building for
/// another machine.
pub open spec fn links_resolver(metadata: MetadataView) -> bool {
    !bsd_triple(metadata.host) && !metadata.is_cross()
}

/// The directives that the GSSAPI plugin adds: where the bundled Kerberos
/// keeps its libraries, then those libraries, each before the ones that it
/// needs, and last the resolver library where it is linked.
pub open spec fn kerberos_directive_texts(
    krb5_lib_dir: Seq<char>,
    metadata: MetadataView,
) -> Seq<Seq<char>> {
    seq![
        search_directive_text(krb5_lib_dir),
        link_directive_text(LinkKind::Static, "gssapi_krb5"@),
        link_directive_text(LinkKind::Static, "krb5"@),
        link_directive_text(LinkKind::Static, "k5crypto"@),
        link_directive_text(LinkKind::Static, "com_err"@),
        link_directive_text(LinkKind::Static, "krb5support"@),
    ] + if links_resolver(metadata) {
        seq!["cargo:rustc-link-lib=resolv"@]
    } else {
        Seq::empty()
    }
}

/// Whether a source build links the bundled Kerberos: where the GSSAPI
/// plugin is built, which no Windows build does.
pub open spec fn links_kerberos(platform: Platform, features: Features) -> bool {
    features.gssapi_vendored && platform == Platform::Unix
}

/// All directives of a source build, in order.
pub open spec fn source_directive_texts(
    platform: Platform,
    install_lib_dir: Seq<char>,
    install_dir: Seq<char>,
    krb5_lib_dir: Option<Seq<char>>,
    features: Features,
    metadata: MetadataView,
) -> Seq<Seq<char>> {
    if links_kerberos(platform, features) {
        library_directive_texts(platform, install_lib_dir, install_dir) + kerberos_directive_texts(
            or_empty(krb5_lib_dir),
            metadata,
        )
    } else {
        library_directive_texts(platform, install_lib_dir, install_dir)
    }
}

/// Writes the directives of a source build. `install_lib_dir` is the library
/// directory below the private prefix `install_dir`; `krb5_lib_dir` is the
/// library directory of the bundled Kerberos, where the environment names
/// one. Fails where Kerberos is to be linked and none is named.
pub fn source_directives(
    platform: Platform,
    install_lib_dir: &str,
    install_dir: &str,
    krb5_lib_dir: Option<&str>,
    features: &Features,
    metadata: &Metadata,
) -> (lines: Result<Vec<String>, Variable>)
    ensures
        lines is Err <==> links_kerberos(platform, *features) && krb5_lib_dir is None,
        lines is Err ==> lines->Err_0 == Variable::Krb5SrcRoot,
        lines is Ok ==> texts(lines->Ok_0@) == source_directive_texts(
            platform,
            install_lib_dir@,
            install_dir@,
            match krb5_lib_dir {
                Some(dir) => Some(dir@),
                None => None,
            },
            *features,
            metadata@,
        ),
{
    let mut lines: Vec<String> = Vec::new();
    lines.push(search_directive(install_lib_dir));
    lines.push(link_directive(LinkKind::Static, library_name(platform)));
    lines.push(joined("cargo:root=", install_dir));
    assert(texts(lines@) =~= library_directive_texts(platform, install_lib_dir@, install_dir@));
    let unix = match platform {
        Platform::Unix => true,
        Platform::Windows => false,
    };
    if features.gssapi_vendored && unix {
        let dir = match krb5_lib_dir {
            Some(dir) => dir,
            None => { return Err(Variable::Krb5SrcRoot); },
        };
        let ghost library = texts(lines@);
        lines.push(search_directive(dir));
        lines.push(link_directive(LinkKind::Static, "gssapi_krb5"));
        lines.push(link_directive(LinkKind::Static, "krb5"));
        lines.push(link_directive(LinkKind::Static, "k5crypto"));
        lines.push(link_directive(LinkKind::Static, "com_err"));
        lines.push(link_directive(LinkKind::Static, "krb5support"));
        if !is_bsd(metadata.host.as_str()) && !metadata.is_cross() {
            lines.push(String::from_str("cargo:rustc-link-lib=resolv"));
        }
        assert(texts(lines@) =~= library + kerberos_directive_texts(dir@, metadata@));
    }
    Ok(lines)
}

impl BuildStep {
    /// The text that reports the failure of this step on a platform.
    pub open spec fn failure_text(self, platform: Platform) -> Seq<char> {
        match platform {
            Platform::Unix => match self {
                BuildStep::Stage => "failed making copy of sasl2 tree"@,
                BuildStep::Configure => "configure failed"@,
                BuildStep::Make => "make failed"@,
                BuildStep::Install => "make failed"@,
            },
            Platform::Windows => match self {
                BuildStep::Stage => "copying source tree failed"@,
                BuildStep::Configure => "nmake build failed"@,
                BuildStep::Make => "nmake build failed"@,
                BuildStep::Install => "nmake install failed"@,
            },
        }
    }

    /// Names this step in the report of its failure. On Unix the build tool
    /// builds and installs in one run; on Windows the tree is not configured
    /// apart from being built.
    pub fn failure(&self, platform: Platform) -> (text: &'static str)
        ensures
            text@ == self.failure_text(platform),
    {
        match platform {
            Platform::Unix => match self {
                BuildStep::Stage => "failed making copy of sasl2 tree",
                BuildStep::Configure => "configure failed",
                BuildStep::Make => "make failed",
                BuildStep::Install => "make failed",
            },
            Platform::Windows => match self {
                BuildStep::Stage => "copying source tree failed",
                BuildStep::Configure => "nmake build failed",
                BuildStep::Make => "nmake build failed",
                BuildStep::Install => "nmake install failed",
            },
        }
    }
}

/// A command of the build together with its step and the place where it
/// runs.
#[derive(Clone, Debug, PartialEq, Eq)]
pub struct PlannedStep {
    /// The step that the command belongs to.
    pub step: BuildStep,
    /// The command.
    pub command: Command,
    /// The directory in which it runs, as the names to descend into from the
    /// tree that is built; empty for the tree itself.
    pub below: Vec<String>,
}

/// The mathematical content of a [`PlannedStep`].
pub struct PlannedStepView {
    pub step: BuildStep,
    pub command: CommandView,
    pub below: Seq<Seq<char>>,
}

impl View for PlannedStep {
    type V = PlannedStepView;

    open spec fn view(&self) -> PlannedStepView {
        PlannedStepView { step: self.step, command: self.command@, below: texts(self.below@) }
    }
}

/// What a list of planned steps holds.
pub open spec fn plan(list: Seq<PlannedStep>) -> Seq<PlannedStepView> {
    list.map_values(|p: PlannedStep| p@)
}

/// The run of the build tool in one directory of the staged tree.
pub open spec fn make_step_view(
    dir: Seq<char>,
    env: BuildEnvView,
    metadata: MetadataView,
) -> PlannedStepView {
    PlannedStepView {
        step: BuildStep::Make,
        command: make_command_view(metadata.host, parallelism_of(env, Platform::Unix)),
        below: seq![dir],
    }
}

/// What is run in the staged tree, in order: the configuration in the tree
/// itself, then the build tool in each directory of the build order. Each
/// step runs only after the one before it has succeeded.
pub open spec fn unix_plan_view(
    configure_program: Seq<char>,
    install_dir: Seq<char>,
    env: BuildEnvView,
    features: Features,
    metadata: MetadataView,
) -> Seq<PlannedStepView> {
    seq![
        PlannedStepView {
            step: BuildStep::Configure,
            command: configure_command_view(
                configure_program,
                install_dir,
                env,
                features,
                metadata,
            ),
            below: Seq::empty(),
        },
        make_step_view(build_order_texts()[0], env, metadata),
        make_step_view(build_order_texts()[1], env, metadata),
        make_step_view(build_order_texts()[2], env, metadata),
    ]
}

/// Plans what is run in the staged tree. `configure_program` is the
/// configuration script of that tree and `install_dir` the private prefix.
/// Fails where the GSSAPI plugin is asked for and the environment names no
/// bundled Kerberos.
pub fn unix_plan(
    configure_program: &str,
    install_dir: &str,
    env: &BuildEnv,
    features: &Features,
    metadata: &Metadata,
) -> (steps: Result<Vec<PlannedStep>, Variable>)
    ensures
        steps is Err <==> lacks_kerberos(env@, *features),
        steps is Err ==> steps->Err_0 == Variable::Krb5SrcRoot,
        steps is Ok ==> plan(steps->Ok_0@) == unix_plan_view(
            configure_program@,
            install_dir@,
            env@,
            *features,
            metadata@,
        ),
{
    let configure = match configure_command(configure_program, install_dir, env, features, metadata) {
        Ok(command) => command,
        Err(missing) => { return Err(missing); },
    };
    let hint = parallelism(env, Platform::Unix);
    let dirs = build_order();
    assert(build_order_texts().len() == 3);
    assert(dirs@.len() == texts(dirs@).len());
    let no_dir: Vec<String> = Vec::new();
    assert(texts(no_dir@) =~= Seq::<Seq<char>>::empty());
    let mut steps: Vec<PlannedStep> = Vec::new();
    steps.push(PlannedStep { step: BuildStep::Configure, command: configure, below: no_dir });
    let mut i: usize = 0;
    while i < 3
        invariant
            i <= 3,
            dirs@.len() == 3,
            texts(dirs@) == build_order_texts(),
            hint@ == parallelism_of(env@, Platform::Unix),
            plan(steps@) == unix_plan_view(
                configure_program@,
                install_dir@,
                env@,
                *features,
                metadata@,
            ).subrange(0, i + 1),
        decreases 3 - i,
    {
        let mut below: Vec<String> = Vec::new();
        below.push(dirs[i].clone());
        assert(texts(dirs@)[i as int] == dirs@[i as int]@);
        assert(texts(below@) =~= seq![build_order_texts()[i as int]]);
        let ghost before = plan(steps@);
        let step = PlannedStep {
            step: BuildStep::Make,
            command: make_command(metadata.host.as_str(), &hint),
            below,
        };
        steps.push(step);
        assert(plan(steps@) =~= before.push(step@));
        assert(plan(steps@) =~= unix_plan_view(
            configure_program@,
            install_dir@,
            env@,
            *features,
            metadata@,
        ).subrange(0, i + 2));
        i += 1;
    }
    assert(plan(steps@) =~= unix_plan_view(
        configure_program@,
        install_dir@,
        env@,
        *features,
        metadata@,
    ));
    Ok(steps)
}

} // verus!
