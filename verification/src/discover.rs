//! Discovery of an installed library: a fixed order of places to look, in
//! which the first that answers wins.
//!
//! The search is a small machine. [`start`] looks at what is known up front
//! and either finishes or names the first question for the outside world;
//! [`after_package_tool`] and [`after_probe`] take the answer to a question
//! and give the next step. [`discovered`] says in one expression what the
//! whole search finds in a given world.

use crate::config::{text_of, Features, Metadata, MetadataView};
use crate::error::BuildError;
use crate::text::{contains, occurs_in, replace_all, replaced, texts};
use vstd::prelude::*;
use vstd::string::*;

verus! {

/// A directory, given as a path to start from and the names of the
/// directories to descend into from there.
#[derive(Clone, Debug, PartialEq, Eq)]
pub struct DirPath {
    pub root: String,
    pub below: Vec<String>,
}

/// The mathematical content of a [`DirPath`].
pub struct DirPathView {
    pub root: Seq<char>,
    pub below: Seq<Seq<char>>,
}

impl View for DirPath {
    type V = DirPathView;

    open spec fn view(&self) -> DirPathView {
        DirPathView { root: self.root@, below: texts(self.below@) }
    }
}

/// The directories that the environment names, each of which may be unset.
#[derive(Clone, Debug, PartialEq, Eq)]
pub struct Overrides {
    /// The directory that holds the library.
    pub lib_dir: Option<String>,
    /// The directory that holds the headers.
    pub include_dir: Option<String>,
    /// An installation root, with the library and the headers below it.
    pub install_root: Option<String>,
}

/// The mathematical content of an [`Overrides`].
pub struct OverridesView {
    pub lib_dir: Option<Seq<char>>,
    pub include_dir: Option<Seq<char>>,
    pub install_root: Option<Seq<char>>,
}

impl View for Overrides {
    type V = OverridesView;

    open spec fn view(&self) -> OverridesView {
        OverridesView {
            lib_dir: text_of(self.lib_dir),
            include_dir: text_of(self.include_dir),
            install_root: text_of(self.install_root),
        }
    }
}

/// Which of the files that a probe looks for are present at one candidate.
#[derive(Clone, Copy, Debug, PartialEq, Eq, Structural)]
pub struct Presence {
    /// `libsasl2.a` in the library directory.
    pub static_archive: bool,
    /// `libsasl2.so` in the library directory.
    pub shared_object: bool,
    /// `libsasl2.dylib` in the library directory.
    pub dynamic_library: bool,
    /// `sasl/sasl.h` in the header directory.
    pub header: bool,
}

impl Presence {
    /// A candidate is usable when it holds the library in one of its forms
    /// and the header.
    pub open spec fn usable(self) -> bool {
        (self.static_archive || self.shared_object || self.dynamic_library) && self.header
    }

    /// Whether a library that can be linked dynamically is present.
    pub open spec fn shared(self) -> bool {
        self.dynamic_library || self.shared_object
    }

    /// Decides whether a candidate is usable.
    pub fn is_usable(&self) -> (ok: bool)
        ensures
            ok == self.usable(),
    {
        (self.static_archive || self.shared_object || self.dynamic_library) && self.header
    }

    /// Decides whether a library that can be linked dynamically is present.
    pub fn has_shared(&self) -> (ok: bool)
        ensures
            ok == self.shared(),
    {
        self.dynamic_library || self.shared_object
    }
}

/// What a search found.
#[derive(Clone, Debug, PartialEq, Eq)]
pub enum Found {
    /// A directory with the library and a directory with the headers, and
    /// the static-linking preference to link them with.
    Directories { lib_dir: DirPath, include_dir: DirPath, want_static: Option<bool> },
    /// The package-metadata tool knows the library and has named these
    /// header directories; it has told the linker what it needs by itself.
    Package { include_paths: Vec<String> },
}

/// The mathematical content of a [`Found`].
pub enum FoundView {
    Directories { lib_dir: DirPathView, include_dir: DirPathView, want_static: Option<bool> },
    Package { include_paths: Seq<Seq<char>> },
}

impl View for Found {
    type V = FoundView;

    open spec fn view(&self) -> FoundView {
        match self {
            Found::Directories { lib_dir, include_dir, want_static } => FoundView::Directories {
                lib_dir: lib_dir@,
                include_dir: include_dir@,
                want_static: *want_static,
            },
            Found::Package { include_paths } => FoundView::Package {
                include_paths: texts(include_paths@),
            },
        }
    }
}

/// One step of the search: either its end, or the next question.
#[derive(Clone, Debug, PartialEq, Eq)]
pub enum Step {
    /// The search is over and found this.
    Found(Found),
    /// Ask the package-metadata tool for `libsasl2`.
    AskPackageTool,
    /// Look for the files of the candidate with this index.
    Probe(usize),
    /// The search is over and found nothing.
    Exhausted,
}

/// The mathematical content of a [`Step`].
pub enum StepView {
    Found(FoundView),
    AskPackageTool,
    Probe(int),
    Exhausted,
}

impl Step {
    /// The error that this step ends the build with, if it does.
    pub open spec fn failure_of(self) -> Option<BuildError> {
        match self {
            Step::Exhausted => Some(BuildError::NotFound),
            _ => None,
        }
    }

    /// The error that this step ends the build with: a search that found
    /// nothing fails the build, every other step lets it go on.
    pub fn failure(&self) -> (error: Option<BuildError>)
        ensures
            error == self.failure_of(),
    {
        match self {
            Step::Exhausted => Some(BuildError::NotFound),
            _ => None,
        }
    }
}

impl View for Step {
    type V = StepView;

    open spec fn view(&self) -> StepView {
        match self {
            Step::Found(found) => StepView::Found(found@),
            Step::AskPackageTool => StepView::AskPackageTool,
            Step::Probe(index) => StepView::Probe(*index as int),
            Step::Exhausted => StepView::Exhausted,
        }
    }
}

/// The number of candidates that the probe goes through.
pub const CANDIDATES: usize = 8;

/// The name by which the package-metadata tool knows the library.
pub const PACKAGE_NAME: &'static str = "libsasl2";

/// The file name of the library as a static archive.
pub const STATIC_ARCHIVE: &'static str = "libsasl2.a";

/// The file name of the library as a shared object.
pub const SHARED_OBJECT: &'static str = "libsasl2.so";

/// The file name of the library as a dynamic library.
pub const DYNAMIC_LIBRARY: &'static str = "libsasl2.dylib";

/// The directory below a header directory that holds the library's headers.
pub const HEADER_DIR: &'static str = "sasl";

/// The header that has to be there.
pub const HEADER_FILE: &'static str = "sasl.h";

/// The triple as the packaging of the operating system writes it.
pub open spec fn packaging_triple(target: Seq<char>) -> Seq<char> {
    replaced(target, "unknown-linux-gnu"@, "linux-gnu"@)
}

/// The installation prefix of a candidate: `/usr` for the first four,
/// `/usr/local` for the others.
pub open spec fn candidate_prefix(index: int) -> Seq<char> {
    if index < 4 {
        "/usr"@
    } else {
        "/usr/local"@
    }
}

/// Where below its prefix a candidate keeps the library: in `lib`, in
/// `lib64`, in `lib` under the target triple, or in `lib` under the triple
/// as the packaging writes it, in this order.
pub open spec fn candidate_below(index: int, target: Seq<char>) -> Seq<Seq<char>> {
    if index % 4 == 0 {
        seq!["lib"@]
    } else if index % 4 == 1 {
        seq!["lib64"@]
    } else if index % 4 == 2 {
        seq!["lib"@, target]
    } else {
        seq!["lib"@, packaging_triple(target)]
    }
}

/// The library directory of a candidate.
pub open spec fn candidate_lib_dir(index: int, target: Seq<char>) -> DirPathView {
    DirPathView { root: candidate_prefix(index), below: candidate_below(index, target) }
}

/// The header directory of a candidate.
pub open spec fn candidate_include_dir(index: int) -> DirPathView {
    DirPathView { root: candidate_prefix(index), below: seq!["include"@] }
}

/// What is found when a candidate turns out to be usable.
pub open spec fn candidate_found(index: int, metadata: MetadataView) -> FoundView {
    FoundView::Directories {
        lib_dir: candidate_lib_dir(index, metadata.target),
        include_dir: candidate_include_dir(index),
        want_static: metadata.want_static,
    }
}

/// What is found when the environment names both directories.
pub open spec fn exact_found(
    lib_dir: Seq<char>,
    include_dir: Seq<char>,
    metadata: MetadataView,
) -> FoundView {
    FoundView::Directories {
        lib_dir: DirPathView { root: lib_dir, below: Seq::empty() },
        include_dir: DirPathView { root: include_dir, below: Seq::empty() },
        want_static: metadata.want_static,
    }
}

/// What is found when the environment names an installation root.
pub open spec fn root_found(root: Seq<char>, metadata: MetadataView) -> FoundView {
    FoundView::Directories {
        lib_dir: DirPathView { root: root, below: seq!["lib"@] },
        include_dir: DirPathView { root: root, below: seq!["include"@] },
        want_static: metadata.want_static,
    }
}

/// Whether the system's own library is taken on trust: host and target are
/// the same Darwin machine and static linking is not forced.
pub open spec fn trusted_path_applies(metadata: MetadataView) -> bool {
    &&& metadata.host == metadata.target
    &&& occurs_in(metadata.target, "darwin"@)
    &&& metadata.want_static != Some(true)
}

/// What is found when the system's own library is taken on trust. The link
/// is forced to be dynamic, since no file would be found to decide by.
pub open spec fn trusted_found() -> FoundView {
    FoundView::Directories {
        lib_dir: DirPathView { root: "/usr/lib"@, below: Seq::empty() },
        include_dir: DirPathView {
            root: "/Library/Developer/CommandLineTools/SDKs/MacOSX.sdk/usr/include"@,
            below: Seq::empty(),
        },
        want_static: Some(false),
    }
}

/// The first step of a search. Both exact directories together end it at
/// once; failing that, an installation root does; failing that, the package
/// tool is asked where it is enabled; otherwise the search goes on as if the
/// tool had not known the library.
pub open spec fn start_step(
    overrides: OverridesView,
    features: Features,
    metadata: MetadataView,
) -> StepView {
    if overrides.lib_dir is Some && overrides.include_dir is Some {
        StepView::Found(exact_found(overrides.lib_dir->0, overrides.include_dir->0, metadata))
    } else if overrides.install_root is Some {
        StepView::Found(root_found(overrides.install_root->0, metadata))
    } else if features.pkg_config {
        StepView::AskPackageTool
    } else {
        package_step(None, metadata)
    }
}

/// The step after the package tool has answered, with the header
/// directories that it named or with nothing.
pub open spec fn package_step(answer: Option<Seq<Seq<char>>>, metadata: MetadataView) -> StepView {
    match answer {
        Some(include_paths) => StepView::Found(FoundView::Package { include_paths }),
        None => if trusted_path_applies(metadata) {
            StepView::Found(trusted_found())
        } else {
            StepView::Probe(0)
        },
    }
}

/// The step after a candidate has been looked at: a usable candidate ends
/// the search, any other leads to the next candidate or, after the last, to
/// the end.
pub open spec fn probe_step(index: int, presence: Presence, metadata: MetadataView) -> StepView {
    if 0 <= index < CANDIDATES && presence.usable() {
        StepView::Found(candidate_found(index, metadata))
    } else if 0 <= index && index + 1 < CANDIDATES {
        StepView::Probe(index + 1)
    } else {
        StepView::Exhausted
    }
}

/// Writes the target triple as the packaging of the operating system does.
pub fn packaging_name(target: &str) -> (name: String)
    ensures
        name@ == packaging_triple(target@),
{
    replace_all(target, "unknown-linux-gnu", "linux-gnu")
}

/// The library directory of the candidate with a given index.
pub fn candidate_lib(index: usize, target: &str) -> (dir: DirPath)
    requires
        index < CANDIDATES,
    ensures
        dir@ == candidate_lib_dir(index as int, target@),
{
    let root = if index < 4 {
        String::from_str("/usr")
    } else {
        String::from_str("/usr/local")
    };
    let mut below: Vec<String> = Vec::new();
    if index % 4 == 0 {
        below.push(String::from_str("lib"));
    } else if index % 4 == 1 {
        below.push(String::from_str("lib64"));
    } else if index % 4 == 2 {
        below.push(String::from_str("lib"));
        below.push(String::from_str(target));
    } else {
        below.push(String::from_str("lib"));
        below.push(packaging_name(target));
    }
    assert(texts(below@) =~= candidate_below(index as int, target@));
    DirPath { root, below }
}

/// The header directory of the candidate with a given index.
pub fn candidate_include(index: usize) -> (dir: DirPath)
    requires
        index < CANDIDATES,
    ensures
        dir@ == candidate_include_dir(index as int),
{
    let root = if index < 4 {
        String::from_str("/usr")
    } else {
        String::from_str("/usr/local")
    };
    let mut below: Vec<String> = Vec::new();
    below.push(String::from_str("include"));
    assert(texts(below@) =~= seq!["include"@]);
    DirPath { root, below }
}

/// A directory that is named outright.
pub fn plain_dir(path: &str) -> (dir: DirPath)
    ensures
        dir@ == (DirPathView { root: path@, below: Seq::empty() }),
{
    let below: Vec<String> = Vec::new();
    assert(texts(below@) =~= Seq::<Seq<char>>::empty());
    DirPath { root: String::from_str(path), below }
}

/// The directory with a given name directly below a root.
pub fn dir_below(root: &str, name: &str) -> (dir: DirPath)
    ensures
        dir@ == (DirPathView { root: root@, below: seq![name@] }),
{
    let mut below: Vec<String> = Vec::new();
    below.push(String::from_str(name));
    assert(texts(below@) =~= seq![name@]);
    DirPath { root: String::from_str(root), below }
}

/// Decides whether the system's own library is taken on trust.
pub fn trusts_system_path(metadata: &Metadata) -> (trusted: bool)
    ensures
        trusted == trusted_path_applies(metadata@),
{
    metadata.host == metadata.target && contains(metadata.target.as_str(), "darwin") && !(
    match metadata.want_static {
        Some(forced) => forced,
        None => false,
    })
}

/// Begins a search.
pub fn start(overrides: &Overrides, features: &Features, metadata: &Metadata) -> (step: Step)
    ensures
        step@ == start_step(overrides@, *features, metadata@),
{
    if let (Some(lib_dir), Some(include_dir)) = (&overrides.lib_dir, &overrides.include_dir) {
        return Step::Found(
            Found::Directories {
                lib_dir: plain_dir(lib_dir.as_str()),
                include_dir: plain_dir(include_dir.as_str()),
                want_static: metadata.want_static,
            },
        );
    }
    if let Some(root) = &overrides.install_root {
        return Step::Found(
            Found::Directories {
                lib_dir: dir_below(root.as_str(), "lib"),
                include_dir: dir_below(root.as_str(), "include"),
                want_static: metadata.want_static,
            },
        );
    }
    if features.pkg_config {
        return Step::AskPackageTool;
    }
    after_package_tool(None, metadata)
}

/// Goes on after the package tool has answered. `answer` holds the header
/// directories that the tool named, or nothing where it does not know the
/// library.
pub fn after_package_tool(answer: Option<Vec<String>>, metadata: &Metadata) -> (step: Step)
    ensures
        step@ == package_step(
            match answer {
                Some(paths) => Some(texts(paths@)),
                None => None,
            },
            metadata@,
        ),
{
    match answer {
        Some(include_paths) => Step::Found(Found::Package { include_paths }),
        None => {
            if trusts_system_path(metadata) {
                Step::Found(
                    Found::Directories {
                        lib_dir: plain_dir("/usr/lib"),
                        include_dir: plain_dir(
                            "/Library/Developer/CommandLineTools/SDKs/MacOSX.sdk/usr/include",
                        ),
                        want_static: Some(false),
                    },
                )
            } else {
                Step::Probe(0)
            }
        },
    }
}

/// Goes on after the candidate with a given index has been looked at.
pub fn after_probe(index: usize, presence: &Presence, metadata: &Metadata) -> (step: Step)
    ensures
        step@ == probe_step(index as int, *presence, metadata@),
{
    if index < CANDIDATES && presence.is_usable() {
        Step::Found(
            Found::Directories {
                lib_dir: candidate_lib(index, metadata.target.as_str()),
                include_dir: candidate_include(index),
                want_static: metadata.want_static,
            },
        )
    } else if index < CANDIDATES - 1 {
        Step::Probe(index + 1)
    } else {
        Step::Exhausted
    }
}

/// What the outside world would answer to the questions of a search.
pub struct World {
    /// The header directories that the package tool names, if it knows the
    /// library.
    pub package: Option<Seq<Seq<char>>>,
    /// What is present at each candidate, by index.
    pub presence: Seq<Presence>,
}

/// The first usable candidate at or after `from`, if there is one.
pub open spec fn first_usable(presence: Seq<Presence>, from: int) -> Option<int>
    decreases CANDIDATES - from,
{
    if from < 0 || from >= CANDIDATES {
        None
    } else if presence[from].usable() {
        Some(from)
    } else {
        first_usable(presence, from + 1)
    }
}

/// What a search finds in a given world. The places are tried in a fixed
/// order and the first that answers wins: both exact directories, the
/// installation root, the package tool where it is enabled, the trusted
/// system path, and then the candidates by index.
pub open spec fn discovered(
    overrides: OverridesView,
    features: Features,
    metadata: MetadataView,
    world: World,
) -> Option<FoundView> {
    if overrides.lib_dir is Some && overrides.include_dir is Some {
        Some(exact_found(overrides.lib_dir->0, overrides.include_dir->0, metadata))
    } else if overrides.install_root is Some {
        Some(root_found(overrides.install_root->0, metadata))
    } else if features.pkg_config && world.package is Some {
        Some(FoundView::Package { include_paths: world.package->0 })
    } else if trusted_path_applies(metadata) {
        Some(trusted_found())
    } else {
        match first_usable(world.presence, 0) {
            Some(index) => Some(candidate_found(index, metadata)),
            None => None,
        }
    }
}

/// Where the machine ends when each of its questions is answered as the
/// world answers it, within `fuel` questions.
pub open spec fn outcome(step: StepView, metadata: MetadataView, world: World, fuel: nat) -> Option<
    FoundView,
>
    decreases fuel,
{
    match step {
        StepView::Found(found) => Some(found),
        StepView::Exhausted => None,
        StepView::AskPackageTool => if fuel == 0 {
            None
        } else {
            outcome(package_step(world.package, metadata), metadata, world, (fuel - 1) as nat)
        },
        StepView::Probe(index) => if fuel == 0 {
            None
        } else {
            outcome(
                probe_step(index, world.presence[index], metadata),
                metadata,
                world,
                (fuel - 1) as nat,
            )
        },
    }
}

/// The first usable candidate is usable, and none before it is; where there
/// is none, no candidate from `from` on is usable.
pub proof fn lemma_first_usable(presence: Seq<Presence>, from: int)
    requires
        0 <= from <= CANDIDATES,
    ensures
        match first_usable(presence, from) {
            Some(index) => from <= index < CANDIDATES && presence[index].usable() && forall|
                j: int,
            |
                from <= j < index ==> !(#[trigger] presence[j]).usable(),
            None => forall|j: int| from <= j < CANDIDATES ==> !(#[trigger] presence[j]).usable(),
        },
    decreases CANDIDATES - from,
{
    if from < CANDIDATES && !presence[from].usable() {
        lemma_first_usable(presence, from + 1);
    }
}

/// Probing from one candidate on ends at the first usable candidate from
/// there, or finds nothing where none is usable.
pub proof fn lemma_probing_finds_first(
    index: int,
    metadata: MetadataView,
    world: World,
    fuel: nat,
)
    requires
        0 <= index < CANDIDATES,
        fuel >= CANDIDATES - index,
    ensures
        outcome(StepView::Probe(index), metadata, world, fuel) == (match first_usable(
            world.presence,
            index,
        ) {
            Some(hit) => Some(candidate_found(hit, metadata)),
            None => None,
        }),
    decreases CANDIDATES - index,
{
    let next = probe_step(index, world.presence[index], metadata);
    assert(outcome(StepView::Probe(index), metadata, world, fuel) == outcome(
        next,
        metadata,
        world,
        (fuel - 1) as nat,
    ));
    if world.presence[index].usable() {
    } else if index + 1 < CANDIDATES {
        lemma_probing_finds_first(index + 1, metadata, world, (fuel - 1) as nat);
    } else {
        assert(first_usable(world.presence, index + 1) == None::<int>);
    }
}

/// Run against any world, the machine ends with what [`discovered`] says of
/// that world: the steps try the places in the stated order and stop at the
/// first that answers.
pub proof fn lemma_search_finds_discovered(
    overrides: OverridesView,
    features: Features,
    metadata: MetadataView,
    world: World,
    fuel: nat,
)
    requires
        fuel > CANDIDATES,
    ensures
        outcome(start_step(overrides, features, metadata), metadata, world, fuel) == discovered(
            overrides,
            features,
            metadata,
            world,
        ),
{
    let first = start_step(overrides, features, metadata);
    if overrides.lib_dir is Some && overrides.include_dir is Some {
    } else if overrides.install_root is Some {
    } else {
        let answer = if features.pkg_config {
            world.package
        } else {
            None
        };
        let after = package_step(answer, metadata);
        if features.pkg_config {
            assert(outcome(first, metadata, world, fuel) == outcome(
                after,
                metadata,
                world,
                (fuel - 1) as nat,
            ));
        }
        if answer is None && !trusted_path_applies(metadata) {
            lemma_probing_finds_first(0, metadata, world, fuel);
            lemma_probing_finds_first(0, metadata, world, (fuel - 1) as nat);
        }
    }
}

/// Where the environment names both exact directories, they are what the
/// search finds: an installation root that is named as well, the package
/// tool and the file system have no say.
pub proof fn lemma_exact_directories_win(
    overrides: OverridesView,
    features: Features,
    metadata: MetadataView,
    world: World,
)
    requires
        overrides.lib_dir is Some,
        overrides.include_dir is Some,
    ensures
        start_step(overrides, features, metadata) == StepView::Found(
            exact_found(overrides.lib_dir->0, overrides.include_dir->0, metadata),
        ),
        discovered(overrides, features, metadata, world) == Some(
            exact_found(overrides.lib_dir->0, overrides.include_dir->0, metadata),
        ),
{
}

} // verus!
