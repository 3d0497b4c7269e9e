//! What a build is given: feature toggles, the platform, and the triples and
//! preferences that the environment supplies.

use vstd::prelude::*;
use vstd::string::*;

verus! {

/// The feature toggles, fixed when the build is configured.
#[derive(Clone, Copy, Debug, PartialEq, Eq, Structural)]
pub struct Features {
    /// Compile the bundled source tree instead of looking for an installed
    /// library.
    pub vendored: bool,
    /// Build the GSSAPI plugin against a bundled Kerberos.
    pub gssapi_vendored: bool,
    /// Build the PLAIN plugin.
    pub plain: bool,
    /// Build the SCRAM plugin.
    pub scram: bool,
    /// Ask the package-metadata tool during discovery.
    pub pkg_config: bool,
    /// OpenSSL is linked through its own bindings, which may name a root.
    pub openssl_sys: bool,
}

/// The family of the machine that runs the build.
#[derive(Clone, Copy, Debug, PartialEq, Eq, Structural)]
pub enum Platform {
    Unix,
    Windows,
}

/// How the native library is obtained.
#[derive(Clone, Copy, Debug, PartialEq, Eq, Structural)]
pub enum Strategy {
    /// Compile the bundled source tree.
    SourceBuild,
    /// Look for a library that is already installed.
    Discovery,
}

/// The strategy that a setting of the vendored toggle selects.
pub open spec fn strategy_of(vendored: bool) -> Strategy {
    if vendored {
        Strategy::SourceBuild
    } else {
        Strategy::Discovery
    }
}

/// Selects the one strategy that runs.
pub fn select_strategy(features: &Features) -> (strategy: Strategy)
    ensures
        strategy == strategy_of(features.vendored),
{
    if features.vendored {
        Strategy::SourceBuild
    } else {
        Strategy::Discovery
    }
}

/// Two configurations that agree on the vendored toggle run the same
/// strategy, whatever their other toggles are; and the strategy is the source
/// build exactly when the toggle is set.
pub proof fn lemma_strategy_depends_on_vendored_alone(a: Features, b: Features)
    requires
        a.vendored == b.vendored,
    ensures
        strategy_of(a.vendored) == strategy_of(b.vendored),
        strategy_of(a.vendored) == Strategy::SourceBuild <==> a.vendored,
        strategy_of(a.vendored) == Strategy::Discovery <==> !a.vendored,
{
}

/// The variable that holds the static-linking preference.
pub const STATIC_VARIABLE: &'static str = "SASL2_STATIC";

/// The variable that names the directory that holds the library.
pub const LIB_DIR_VARIABLE: &'static str = "SASL2_LIB_DIR";

/// The variable that names the directory that holds the headers.
pub const INCLUDE_DIR_VARIABLE: &'static str = "SASL2_INCLUDE_DIR";

/// The variable that names an installation root.
pub const INSTALL_ROOT_VARIABLE: &'static str = "SASL2_DIR";

/// The directive that has the outer build run this build again when the
/// static-linking preference changes.
pub const RERUN_DIRECTIVE: &'static str = "cargo:rerun-if-env-changed=SASL2_STATIC";

/// A variable that the environment has to supply.
#[derive(Clone, Copy, Debug, PartialEq, Eq, Structural)]
pub enum Variable {
    Host,
    Target,
    OutDir,
    Krb5SrcRoot,
}

impl Variable {
    /// The name of the variable, as a sequence of characters.
    pub open spec fn name_text(self) -> Seq<char> {
        match self {
            Variable::Host => "HOST"@,
            Variable::Target => "TARGET"@,
            Variable::OutDir => "OUT_DIR"@,
            Variable::Krb5SrcRoot => "DEP_KRB5_SRC_ROOT"@,
        }
    }

    /// The name under which the environment holds the variable.
    pub fn name(&self) -> (name: &'static str)
        ensures
            name@ == self.name_text(),
    {
        match self {
            Variable::Host => "HOST",
            Variable::Target => "TARGET",
            Variable::OutDir => "OUT_DIR",
            Variable::Krb5SrcRoot => "DEP_KRB5_SRC_ROOT",
        }
    }
}

/// The static-linking preference that a value of the preference variable
/// stands for: unset leaves the choice open, `0` asks for dynamic linking,
/// anything else for static linking.
pub open spec fn preference_of(value: Option<Seq<char>>) -> Option<bool> {
    match value {
        None => None,
        Some(v) => Some(v != seq!['0']),
    }
}

/// Reads the static-linking preference.
pub fn static_preference(value: Option<&str>) -> (preference: Option<bool>)
    ensures
        preference == preference_of(
            match value {
                None => None,
                Some(v) => Some(v@),
            },
        ),
{
    match value {
        None => None,
        Some(v) => {
            let is_zero = v.unicode_len() == 1 && v.get_char(0) == '0';
            assert(is_zero == (v@ =~= seq!['0']));
            Some(!is_zero)
        },
    }
}

/// What one build is told about itself.
#[derive(Clone, Debug)]
pub struct Metadata {
    /// The triple of the machine that runs the build.
    pub host: String,
    /// The triple of the machine that the build is for.
    pub target: String,
    /// Whether static linking is asked for, refused, or left open.
    pub want_static: Option<bool>,
    /// The directory that this build may write to.
    pub out_dir: String,
}

/// The mathematical content of a [`Metadata`].
pub struct MetadataView {
    pub host: Seq<char>,
    pub target: Seq<char>,
    pub want_static: Option<bool>,
    pub out_dir: Seq<char>,
}

impl View for Metadata {
    type V = MetadataView;

    open spec fn view(&self) -> MetadataView {
        MetadataView {
            host: self.host@,
            target: self.target@,
            want_static: self.want_static,
            out_dir: self.out_dir@,
        }
    }
}

impl MetadataView {
    /// Whether the build is for another machine than the one that runs it.
    pub open spec fn is_cross(self) -> bool {
        self.host != self.target
    }
}

impl Metadata {
    /// Whether the build is for another machine than the one that runs it.
    pub fn is_cross(&self) -> (cross: bool)
        ensures
            cross == self@.is_cross(),
    {
        !(self.host == self.target)
    }
}

/// The view of a text that may be absent.
pub open spec fn text_of(value: Option<String>) -> Option<Seq<char>> {
    match value {
        None => None,
        Some(v) => Some(v@),
    }
}

/// The variable that is reported missing, if one is: the host is looked at
/// first, then the target, then the output directory.
pub open spec fn first_missing(
    host: Option<Seq<char>>,
    target: Option<Seq<char>>,
    out_dir: Option<Seq<char>>,
) -> Option<Variable> {
    if host is None {
        Some(Variable::Host)
    } else if target is None {
        Some(Variable::Target)
    } else if out_dir is None {
        Some(Variable::OutDir)
    } else {
        None
    }
}

/// Puts together the metadata of a build from what the environment holds.
pub fn metadata_from_env(
    host: Option<String>,
    target: Option<String>,
    static_value: Option<String>,
    out_dir: Option<String>,
) -> (metadata: Result<Metadata, Variable>)
    ensures
        match metadata {
            Ok(m) => first_missing(text_of(host), text_of(target), text_of(out_dir)) is None
                && m@ == (MetadataView {
                host: host->0@,
                target: target->0@,
                want_static: preference_of(text_of(static_value)),
                out_dir: out_dir->0@,
            }),
            Err(v) => first_missing(text_of(host), text_of(target), text_of(out_dir)) == Some(v),
        },
{
    let host = match host {
        Some(h) => h,
        None => { return Err(Variable::Host); },
    };
    let target = match target {
        Some(t) => t,
        None => { return Err(Variable::Target); },
    };
    let want_static = match &static_value {
        None => static_preference(None),
        Some(v) => static_preference(Some(v.as_str())),
    };
    let out_dir = match out_dir {
        Some(o) => o,
        None => { return Err(Variable::OutDir); },
    };
    Ok(Metadata { host, target, want_static, out_dir })
}

} // verus!
