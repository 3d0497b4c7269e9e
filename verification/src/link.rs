//! The link kind and the directives that tell the outer build what to link.

use crate::config::Platform;
use crate::text::texts;
use vstd::prelude::*;
use vstd::string::*;

verus! {

/// Whether the library's code is embedded or resolved when the program runs.
#[derive(Clone, Copy, Debug, PartialEq, Eq, Structural)]
pub enum LinkKind {
    Static,
    Dynamic,
}

/// The link kind for a library that was found: an explicit preference is
/// honoured; without one, a shared library that is present is preferred, and
/// static linking is the fallback.
pub open spec fn link_kind_of(want_static: Option<bool>, shared_present: bool) -> LinkKind {
    match want_static {
        Some(true) => LinkKind::Static,
        Some(false) => LinkKind::Dynamic,
        None => if shared_present {
            LinkKind::Dynamic
        } else {
            LinkKind::Static
        },
    }
}

/// Whether the link kind depends on a shared library being present, so that
/// the file system has to be asked.
pub fn needs_shared_lookup(want_static: Option<bool>) -> (needed: bool)
    ensures
        needed == (want_static is None),
        !needed ==> link_kind_of(want_static, true) == link_kind_of(want_static, false),
{
    want_static.is_none()
}

/// Selects the link kind for a library that was found.
pub fn select_link_kind(want_static: Option<bool>, shared_present: bool) -> (kind: LinkKind)
    ensures
        kind == link_kind_of(want_static, shared_present),
{
    match want_static {
        Some(true) => LinkKind::Static,
        Some(false) => LinkKind::Dynamic,
        None => if shared_present {
            LinkKind::Dynamic
        } else {
            LinkKind::Static
        },
    }
}

/// The link kind is decided by the preference and by the presence of a
/// shared library alone: an explicit preference is honoured whatever is
/// present, and without one the presence of a shared library decides.
pub proof fn lemma_link_kind_cases(shared_present: bool)
    ensures
        link_kind_of(Some(true), shared_present) == LinkKind::Static,
        link_kind_of(Some(false), shared_present) == LinkKind::Dynamic,
        link_kind_of(None, true) == LinkKind::Dynamic,
        link_kind_of(None, false) == LinkKind::Static,
{
}

impl LinkKind {
    /// The word for this kind in a link directive.
    pub open spec fn word_text(self) -> Seq<char> {
        match self {
            LinkKind::Static => "static"@,
            LinkKind::Dynamic => "dylib"@,
        }
    }

    /// The word for this kind in a link directive.
    pub fn word(&self) -> (word: &'static str)
        ensures
            word@ == self.word_text(),
    {
        match self {
            LinkKind::Static => "static",
            LinkKind::Dynamic => "dylib",
        }
    }
}

/// The name under which the library is linked on a platform.
pub open spec fn library_name_text(platform: Platform) -> Seq<char> {
    match platform {
        Platform::Unix => "sasl2"@,
        Platform::Windows => "libsasl"@,
    }
}

/// The name under which the library is linked on a platform.
pub fn library_name(platform: Platform) -> (name: &'static str)
    ensures
        name@ == library_name_text(platform),
{
    match platform {
        Platform::Unix => "sasl2",
        Platform::Windows => "libsasl",
    }
}

/// The directive that adds a directory to the linker's search path.
pub open spec fn search_directive_text(dir: Seq<char>) -> Seq<char> {
    "cargo:rustc-link-search=native="@ + dir
}

/// The directive that links a library with a given kind.
pub open spec fn link_directive_text(kind: LinkKind, name: Seq<char>) -> Seq<char> {
    "cargo:rustc-link-lib="@ + kind.word_text() + "="@ + name
}

/// Writes the directive that adds a directory to the linker's search path.
pub fn search_directive(dir: &str) -> (line: String)
    ensures
        line@ == search_directive_text(dir@),
{
    let mut line = String::from_str("cargo:rustc-link-search=native=");
    line.append(dir);
    line
}

/// Writes the directive that links a library with a given kind.
pub fn link_directive(kind: LinkKind, name: &str) -> (line: String)
    ensures
        line@ == link_directive_text(kind, name@),
{
    let mut line = String::from_str("cargo:rustc-link-lib=");
    line.append(kind.word());
    line.append("=");
    line.append(name);
    line
}

/// The directives for a library that was found in `lib_dir`: the search
/// path, then the library itself.
pub open spec fn found_directive_texts(
    platform: Platform,
    lib_dir: Seq<char>,
    kind: LinkKind,
) -> Seq<Seq<char>> {
    seq![search_directive_text(lib_dir), link_directive_text(kind, library_name_text(platform))]
}

/// Writes the directives for a library that was found in `lib_dir`.
pub fn found_directives(platform: Platform, lib_dir: &str, kind: LinkKind) -> (lines: Vec<String>)
    ensures
        texts(lines@) == found_directive_texts(platform, lib_dir@, kind),
{
    let mut lines: Vec<String> = Vec::new();
    lines.push(search_directive(lib_dir));
    lines.push(link_directive(kind, library_name(platform)));
    assert(texts(lines@) =~= found_directive_texts(platform, lib_dir@, kind));
    lines
}

} // verus!
