//! The version triple of the native library and the range that is supported.

use crate::text::{decimal, decimal_text, lines_of, parse_u8, parsed_u8, rows, split_lines};
use vstd::prelude::*;
use vstd::string::*;
use vstd::utf8::*;

verus! {

/// The one supported major version.
pub const SUPPORTED_MAJOR: u8 = 2;

/// The one supported minor version.
pub const SUPPORTED_MINOR: u8 = 1;

/// The lowest supported step.
pub const MIN_SUPPORTED_STEP: u8 = 26;

/// The highest supported step.
pub const MAX_SUPPORTED_STEP: u8 = 28;

/// The source file of the probe, which prints the three components of the
/// version on its last three lines, major first.
pub const PROBE_FILE: &'static str = "version.c";

/// A version of the native library as its headers report it.
#[derive(Clone, Copy, Debug, PartialEq, Eq, Structural)]
pub struct VersionTriple {
    pub major: u8,
    pub minor: u8,
    pub step: u8,
}

/// Whether a triple lies in the range the declarations are known to match.
pub open spec fn is_supported(v: VersionTriple) -> bool {
    &&& v.major == SUPPORTED_MAJOR
    &&& v.minor == SUPPORTED_MINOR
    &&& MIN_SUPPORTED_STEP <= v.step <= MAX_SUPPORTED_STEP
}

impl VersionTriple {
    /// Decides whether this version may be linked against.
    pub fn supported(&self) -> (ok: bool)
        ensures
            ok == is_supported(*self),
    {
        self.major == SUPPORTED_MAJOR && self.minor == SUPPORTED_MINOR && MIN_SUPPORTED_STEP
            <= self.step && self.step <= MAX_SUPPORTED_STEP
    }
}

/// Why a probe of the headers did not yield a usable version.
#[derive(Clone, Copy, Debug, PartialEq, Eq, Structural)]
pub enum VersionError {
    /// The probe printed fewer than three lines, or one of its last three
    /// lines is not a number from 0 to 255.
    MalformedProbeOutput,
    /// The headers describe a version outside the supported range.
    Unsupported(VersionTriple),
}

/// A triple that is supported passes; any other is refused and reported.
pub open spec fn checked(v: VersionTriple) -> Result<VersionTriple, VersionError> {
    if is_supported(v) {
        Ok(v)
    } else {
        Err(VersionError::Unsupported(v))
    }
}

/// The verdict on three fields as they were read: all three must be numbers,
/// and together a supported version.
pub open spec fn version_of_fields(
    major: Option<u8>,
    minor: Option<u8>,
    step: Option<u8>,
) -> Result<VersionTriple, VersionError> {
    if major is Some && minor is Some && step is Some {
        checked(VersionTriple { major: major->0, minor: minor->0, step: step->0 })
    } else {
        Err(VersionError::MalformedProbeOutput)
    }
}

/// The verdict on the lines of a probe: its last three lines are major,
/// minor and step, in that order.
pub open spec fn version_of_lines(lines: Seq<Seq<char>>) -> Result<VersionTriple, VersionError> {
    if lines.len() < 3 {
        Err(VersionError::MalformedProbeOutput)
    } else {
        version_of_fields(
            parsed_u8(lines[lines.len() - 3]),
            parsed_u8(lines[lines.len() - 2]),
            parsed_u8(lines[lines.len() - 1]),
        )
    }
}

/// The verdict on the whole output of a probe.
pub open spec fn version_of_output(output: Seq<char>) -> Result<VersionTriple, VersionError> {
    version_of_lines(lines_of(output))
}

/// Checks a version against the supported range.
pub fn check_version(major: u8, minor: u8, step: u8) -> (verdict: Result<
    VersionTriple,
    VersionError,
>)
    ensures
        verdict == checked(VersionTriple { major, minor, step }),
{
    let v = VersionTriple { major, minor, step };
    if v.supported() {
        Ok(v)
    } else {
        Err(VersionError::Unsupported(v))
    }
}

/// Judges three fields as they were read from the end of a probe's output.
pub fn version_from_fields(major: Option<u8>, minor: Option<u8>, step: Option<u8>) -> (verdict:
    Result<VersionTriple, VersionError>)
    ensures
        verdict == version_of_fields(major, minor, step),
{
    match (major, minor, step) {
        (Some(a), Some(b), Some(c)) => check_version(a, b, c),
        _ => Err(VersionError::MalformedProbeOutput),
    }
}

/// Reads the version from the output of a probe and checks it.
///
/// The probe prints the three components on its last three lines, major
/// first. Anything before those lines is ignored.
pub fn validate_probe_output(output: &str) -> (verdict: Result<VersionTriple, VersionError>)
    ensures
        verdict == version_of_output(output@),
{
    let lines = split_lines(output);
    let n: usize = lines.len();
    if n < 3 {
        return Err(VersionError::MalformedProbeOutput);
    }
    assert(rows(lines@)[n - 1] == lines@[n - 1]@);
    assert(rows(lines@)[n - 2] == lines@[n - 2]@);
    assert(rows(lines@)[n - 3] == lines@[n - 3]@);
    let step = parse_u8(&lines[n - 1]);
    let minor = parse_u8(&lines[n - 2]);
    let major = parse_u8(&lines[n - 3]);
    version_from_fields(major, minor, step)
}

/// The text that reports a version outside the supported range: the version
/// that was found, then the range that is supported.
pub open spec fn unsupported_text(v: VersionTriple) -> Seq<char> {
    "system libsasl is v"@ + decimal_text(v.major as nat) + "."@ + decimal_text(v.minor as nat)
        + "."@ + decimal_text(v.step as nat)
        + ", but this version of sasl2-sys requires v2.1.26-v2.1.28"@
}

/// The text that reports a probe whose output could not be read.
pub open spec fn malformed_text() -> Seq<char> {
    "the version probe did not end with three lines that each hold a number from 0 to 255"@
}

impl VersionError {
    /// The text of this error, as the build reports it.
    pub open spec fn text(self) -> Seq<char> {
        match self {
            VersionError::MalformedProbeOutput => malformed_text(),
            VersionError::Unsupported(v) => unsupported_text(v),
        }
    }

    /// Writes this error for the build's diagnostic stream.
    pub fn message(&self) -> (out: String)
        ensures
            out@ == self.text(),
    {
        match self {
            VersionError::MalformedProbeOutput => String::from_str(
                "the version probe did not end with three lines that each hold a number from 0 to 255",
            ),
            VersionError::Unsupported(v) => {
                let mut out = String::from_str("system libsasl is v");
                out.append(decimal(v.major).as_str());
                out.append(".");
                out.append(decimal(v.minor).as_str());
                out.append(".");
                out.append(decimal(v.step).as_str());
                out.append(", but this version of sasl2-sys requires v2.1.26-v2.1.28");
                out
            },
        }
    }
}

/// The line that publishes one component of the version under `name`: the
/// directive, the name, an equals sign, the component as one raw byte, and a
/// line feed.
pub open spec fn published_line(name: Seq<char>, value: u8) -> Seq<u8> {
    encode_utf8("cargo:rustc-env="@) + encode_utf8(name) + encode_utf8("="@) + seq![value, 10u8]
}

/// Writes the line that publishes one component of the version.
pub fn publish_line(name: &str, value: u8) -> (line: Vec<u8>)
    ensures
        line@ == published_line(name@, value),
{
    let mut line: Vec<u8> = "cargo:rustc-env=".as_bytes_vec();
    let mut part = name.as_bytes_vec();
    line.append(&mut part);
    let mut sign = "=".as_bytes_vec();
    line.append(&mut sign);
    line.push(value);
    line.push(10u8);
    assert(line@ =~= published_line(name@, value));
    line
}

/// Writes the three lines that publish a version, major first.
pub fn publish_version(v: VersionTriple) -> (lines: Vec<Vec<u8>>)
    ensures
        lines@.len() == 3,
        lines@[0]@ == published_line("SASL_VERSION_MAJOR"@, v.major),
        lines@[1]@ == published_line("SASL_VERSION_MINOR"@, v.minor),
        lines@[2]@ == published_line("SASL_VERSION_STEP"@, v.step),
{
    let mut lines: Vec<Vec<u8>> = Vec::new();
    lines.push(publish_line("SASL_VERSION_MAJOR", v.major));
    lines.push(publish_line("SASL_VERSION_MINOR", v.minor));
    lines.push(publish_line("SASL_VERSION_STEP", v.step));
    lines
}

/// The three components packed into one number, eight bits each.
pub open spec fn packed(major: u8, minor: u8, step: u8) -> int {
    major * 65536 + minor * 256 + step
}

/// Packs the three components into one number, major highest.
pub fn version_full(major: u8, minor: u8, step: u8) -> (full: i32)
    ensures
        full == packed(major, minor, step),
{
    let a: u32 = major as u32;
    let b: u32 = minor as u32;
    let c: u32 = step as u32;
    let full: u32 = (a << 16) | (b << 8) | c;
    assert(full == a * 65536 + b * 256 + c) by (bit_vector)
        requires
            a < 256,
            b < 256,
            c < 256,
            full == (a << 16) | (b << 8) | c,
    ;
    full as i32
}

} // verus!
