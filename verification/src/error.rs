//! The ways in which a build ends without a library. Each of them is fatal:
//! nothing is retried and nothing is emitted.

use crate::config::{Platform, Variable};
use crate::vendored::BuildStep;
use crate::version::VersionError;
use crate::windows::Refusal;
use vstd::prelude::*;
use vstd::string::*;

verus! {

/// Why a build ended without a library.
#[derive(Clone, Copy, Debug, PartialEq, Eq, Structural)]
pub enum BuildError {
    /// The environment lacks a variable that the build needs.
    MissingVariable(Variable),
    /// A tool that a step of the build ran has failed.
    StepFailed(BuildStep),
    /// The source build is not possible in this configuration.
    Refused(Refusal),
    /// No place that discovery looks in holds the library.
    NotFound,
    /// The headers that were found do not describe a supported version.
    Version(VersionError),
}

/// The text that reports that discovery found nothing, with hints on what to
/// do about it.
pub open spec fn not_found_text() -> Seq<char> {
    "Unable to find libsasl2 on your system. Hints:

  * Have you installed the libsasl2 development package for your platform?
    On Debian-based systems, try libsasl2-dev. On RHEL-based systems, try
    cyrus-sasl-devel. On macOS with Homebrew, try cyrus-sasl.

  * Have you incorrectly set the SASL2_STATIC environment variable when your
    system only supports dynamic linking?

  * Are you willing to enable the `vendored` feature to instead build and link
    against a bundled copy of libsasl2?
"@
}

/// The text that reports a variable that the environment lacks.
pub open spec fn missing_text(variable: Variable) -> Seq<char> {
    "the environment variable "@ + variable.name_text() + " is not set"@
}

impl BuildError {
    /// The text of this error on a platform.
    pub open spec fn text(self, platform: Platform) -> Seq<char> {
        match self {
            BuildError::MissingVariable(variable) => missing_text(variable),
            BuildError::StepFailed(step) => step.failure_text(platform),
            BuildError::Refused(refusal) => refusal.text(),
            BuildError::NotFound => not_found_text(),
            BuildError::Version(error) => error.text(),
        }
    }

    /// Writes this error for the build's diagnostic stream.
    pub fn message(&self, platform: Platform) -> (out: String)
        ensures
            out@ == self.text(platform),
    {
        match self {
            BuildError::MissingVariable(variable) => {
                let mut out = String::from_str("the environment variable ");
                out.append(variable.name());
                out.append(" is not set");
                out
            },
            BuildError::StepFailed(step) => String::from_str(step.failure(platform)),
            BuildError::Refused(refusal) => String::from_str(refusal.message()),
            BuildError::NotFound => String::from_str(
                "Unable to find libsasl2 on your system. Hints:

  * Have you installed the libsasl2 development package for your platform?
    On Debian-based systems, try libsasl2-dev. On RHEL-based systems, try
    cyrus-sasl-devel. On macOS with Homebrew, try cyrus-sasl.

  * Have you incorrectly set the SASL2_STATIC environment variable when your
    system only supports dynamic linking?

  * Are you willing to enable the `vendored` feature to instead build and link
    against a bundled copy of libsasl2?
",
            ),
            BuildError::Version(error) => error.message(),
        }
    }
}

} // verus!
