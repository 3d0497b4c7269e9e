//! The end of a resolution: the headers are checked first, and only a
//! supported version lets anything be emitted.

use crate::config::{Features, Metadata, MetadataView, Platform, Variable};
use crate::error::BuildError;
use crate::link::{found_directive_texts, found_directives, link_kind_of, select_link_kind};
use crate::text::texts;
use crate::vendored::{links_kerberos, source_directive_texts, source_directives};
use crate::version::{
    is_supported, publish_version, published_line, validate_probe_output, version_of_output,
    VersionTriple,
};
use vstd::prelude::*;
use vstd::string::*;

verus! {

/// What a list of byte vectors holds: the bytes of each.
pub open spec fn byte_rows(list: Seq<Vec<u8>>) -> Seq<Seq<u8>> {
    list.map_values(|r: Vec<u8>| r@)
}

/// What a successful resolution hands to the outer build.
#[derive(Clone, Debug, PartialEq, Eq)]
pub struct Resolution {
    /// The version that the headers describe.
    pub version: VersionTriple,
    /// The lines that publish the version, as raw bytes.
    pub published: Vec<Vec<u8>>,
    /// The directives for the linker, one per line.
    pub directives: Vec<String>,
}

/// The mathematical content of a [`Resolution`].
pub struct ResolutionView {
    pub version: VersionTriple,
    pub published: Seq<Seq<u8>>,
    pub directives: Seq<Seq<char>>,
}

impl View for Resolution {
    type V = ResolutionView;

    open spec fn view(&self) -> ResolutionView {
        ResolutionView {
            version: self.version,
            published: byte_rows(self.published@),
            directives: texts(self.directives@),
        }
    }
}

/// The three lines that publish a version, major first.
pub open spec fn published_lines(v: VersionTriple) -> Seq<Seq<u8>> {
    seq![
        published_line("SASL_VERSION_MAJOR"@, v.major),
        published_line("SASL_VERSION_MINOR"@, v.minor),
        published_line("SASL_VERSION_STEP"@, v.step),
    ]
}

/// The resolution that a probe's output allows: with a supported version,
/// that version, its published lines and the given directives; otherwise
/// the error of the version, and nothing else.
pub open spec fn resolved(output: Seq<char>, directives: Seq<Seq<char>>) -> Result<
    ResolutionView,
    BuildError,
> {
    match version_of_output(output) {
        Ok(version) => Ok(
            ResolutionView { version, published: published_lines(version), directives },
        ),
        Err(error) => Err(BuildError::Version(error)),
    }
}

/// The view of a resolution that may have failed.
pub open spec fn outcome_view(outcome: Result<Resolution, BuildError>) -> Result<
    ResolutionView,
    BuildError,
> {
    match outcome {
        Ok(resolution) => Ok(resolution@),
        Err(error) => Err(error),
    }
}

/// Nothing is resolved against headers of an unsupported version: whatever
/// the directives, a resolution exists only where the probe's output holds a
/// supported version, and then it carries that version.
pub proof fn lemma_resolved_is_supported(output: Seq<char>, directives: Seq<Seq<char>>)
    ensures
        resolved(output, directives) is Ok <==> version_of_output(output) is Ok,
        resolved(output, directives) is Ok ==> is_supported(
            resolved(output, directives)->Ok_0.version,
        ),
{
}

/// Checks the probe's output and, with a supported version, publishes it.
fn checked_version(probe_output: &str) -> (outcome: Result<(VersionTriple, Vec<Vec<u8>>), BuildError>)
    ensures
        match version_of_output(probe_output@) {
            Ok(version) => outcome is Ok && outcome->Ok_0.0 == version && byte_rows(
                outcome->Ok_0.1@,
            ) == published_lines(version),
            Err(error) => outcome == Err::<(VersionTriple, Vec<Vec<u8>>), BuildError>(
                BuildError::Version(error),
            ),
        },
{
    match validate_probe_output(probe_output) {
        Ok(version) => {
            let published = publish_version(version);
            assert(byte_rows(published@) =~= published_lines(version));
            Ok((version, published))
        },
        Err(error) => Err(BuildError::Version(error)),
    }
}

/// Finishes a discovery that found directories. `lib_dir` is the library
/// directory as it is written on a command line, `shared_present` says
/// whether it holds a library that can be linked dynamically, and
/// `probe_output` is what the probe of the headers printed.
pub fn found_resolution(
    platform: Platform,
    lib_dir: &str,
    want_static: Option<bool>,
    shared_present: bool,
    probe_output: &str,
) -> (outcome: Result<Resolution, BuildError>)
    ensures
        outcome_view(outcome) == resolved(
            probe_output@,
            found_directive_texts(platform, lib_dir@, link_kind_of(want_static, shared_present)),
        ),
{
    let (version, published) = match checked_version(probe_output) {
        Ok(pair) => pair,
        Err(error) => { return Err(error); },
    };
    let kind = select_link_kind(want_static, shared_present);
    let directives = found_directives(platform, lib_dir, kind);
    Ok(Resolution { version, published, directives })
}

/// Finishes a discovery in which the package tool answered. The tool has
/// told the linker what it needs, so no directive is added.
pub fn package_resolution(probe_output: &str) -> (outcome: Result<Resolution, BuildError>)
    ensures
        outcome_view(outcome) == resolved(probe_output@, Seq::empty()),
{
    let (version, published) = match checked_version(probe_output) {
        Ok(pair) => pair,
        Err(error) => { return Err(error); },
    };
    let directives: Vec<String> = Vec::new();
    assert(texts(directives@) =~= Seq::<Seq<char>>::empty());
    Ok(Resolution { version, published, directives })
}

/// What a source build resolves to. The version is judged first; with a
/// supported version, a bundled Kerberos that is to be linked has to be
/// named.
pub open spec fn source_resolved(
    platform: Platform,
    install_lib_dir: Seq<char>,
    install_dir: Seq<char>,
    krb5_lib_dir: Option<Seq<char>>,
    features: Features,
    metadata: MetadataView,
    output: Seq<char>,
) -> Result<ResolutionView, BuildError> {
    if version_of_output(output) is Ok && links_kerberos(platform, features)
        && krb5_lib_dir is None {
        Err(BuildError::MissingVariable(Variable::Krb5SrcRoot))
    } else {
        resolved(
            output,
            source_directive_texts(
                platform,
                install_lib_dir,
                install_dir,
                krb5_lib_dir,
                features,
                metadata,
            ),
        )
    }
}

/// Finishes a source build. `install_lib_dir` is the library directory below
/// the private prefix `install_dir`, `krb5_lib_dir` the library directory of
/// the bundled Kerberos where the environment names one, and `probe_output`
/// what the probe of the installed headers printed.
pub fn source_resolution(
    platform: Platform,
    install_lib_dir: &str,
    install_dir: &str,
    krb5_lib_dir: Option<&str>,
    features: &Features,
    metadata: &Metadata,
    probe_output: &str,
) -> (outcome: Result<Resolution, BuildError>)
    ensures
        outcome_view(outcome) == source_resolved(
            platform,
            install_lib_dir@,
            install_dir@,
            match krb5_lib_dir {
                Some(dir) => Some(dir@),
                None => None,
            },
            *features,
            metadata@,
            probe_output@,
        ),
{
    let (version, published) = match checked_version(probe_output) {
        Ok(pair) => pair,
        Err(error) => { return Err(error); },
    };
    let directives = match source_directives(
        platform,
        install_lib_dir,
        install_dir,
        krb5_lib_dir,
        features,
        metadata,
    ) {
        Ok(lines) => lines,
        Err(missing) => { return Err(BuildError::MissingVariable(missing)); },
    };
    Ok(Resolution { version, published, directives })
}

} // verus!
