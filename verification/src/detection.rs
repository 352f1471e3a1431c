//! Project detection: which kind of project a directory holds.
//!
//! A directory is handed to the detectors as a [`ProjectFiles`] snapshot: the
//! names of its top-level entries and the contents of its readable files.
use crate::error::{CciError, ErrorView};
use crate::text::{
    chars_of, decimal, join, join_strings, lines_exec, lines_of, slice_chars, starts_with,
    starts_with_exec, str_eq, string_of, take_word, take_word_exec, trim, trim_chars, trim_start,
    trim_start_exec, usize_to_string, views,
};
use vstd::prelude::*;

verus! {

/// The kinds of project the detectors recognise.
#[derive(PartialEq, Eq, Structural, Clone, Copy, Debug)]
pub enum ProjectType {
    RustBinary,
    RustLibrary,
    RustWorkspace,
    PythonApp,
    PythonLibrary,
    GoApp,
    GoLibrary,
    DockerImage,
}

/// The name under which a project type is shown.
pub open spec fn project_type_name(t: ProjectType) -> Seq<char> {
    match t {
        ProjectType::RustBinary => "RustBinary"@,
        ProjectType::RustLibrary => "RustLibrary"@,
        ProjectType::RustWorkspace => "RustWorkspace"@,
        ProjectType::PythonApp => "PythonApp"@,
        ProjectType::PythonLibrary => "PythonLibrary"@,
        ProjectType::GoApp => "GoApp"@,
        ProjectType::GoLibrary => "GoLibrary"@,
        ProjectType::DockerImage => "DockerImage"@,
    }
}

impl ProjectType {
    /// The name under which this project type is shown.
    pub fn name(&self) -> (s: &'static str)
        ensures
            s@ == project_type_name(*self),
    {
        match self {
            ProjectType::RustBinary => "RustBinary",
            ProjectType::RustLibrary => "RustLibrary",
            ProjectType::RustWorkspace => "RustWorkspace",
            ProjectType::PythonApp => "PythonApp",
            ProjectType::PythonLibrary => "PythonLibrary",
            ProjectType::GoApp => "GoApp",
            ProjectType::GoLibrary => "GoLibrary",
            ProjectType::DockerImage => "DockerImage",
        }
    }
}

/// What a detector found out about a project.
#[derive(Debug)]
pub struct DetectionResult {
    pub project_type: ProjectType,
    pub language_version: Option<String>,
    /// Key/value facts, each key at most once.
    pub metadata: Vec<(String, String)>,
}

/// A detection result as plain values.
pub struct DetectionView {
    pub project_type: ProjectType,
    pub language_version: Option<Seq<char>>,
    pub metadata: Seq<(Seq<char>, Seq<char>)>,
}

pub open spec fn opt_view(o: Option<String>) -> Option<Seq<char>> {
    match o {
        Some(s) => Some(s@),
        None => None,
    }
}

pub open spec fn pairs_view(v: Seq<(String, String)>) -> Seq<(Seq<char>, Seq<char>)> {
    v.map_values(|p: (String, String)| (p.0@, p.1@))
}

impl View for DetectionResult {
    type V = DetectionView;

    open spec fn view(&self) -> DetectionView {
        DetectionView {
            project_type: self.project_type,
            language_version: opt_view(self.language_version),
            metadata: pairs_view(self.metadata@),
        }
    }
}

/// The value stored under the first occurrence of `key`.
pub open spec fn lookup_pair(v: Seq<(Seq<char>, Seq<char>)>, key: Seq<char>) -> Option<Seq<char>>
    decreases v.len(),
{
    if v.len() == 0 {
        None
    } else if v[0].0 == key {
        Some(v[0].1)
    } else {
        lookup_pair(v.drop_first(), key)
    }
}

impl DetectionResult {
    /// The value of a metadata key.
    pub fn get_metadata(&self, key: &str) -> (r: Option<String>)
        ensures
            opt_view(r) == lookup_pair(self@.metadata, key@),
    {
        let ghost all = pairs_view(self.metadata@);
        assert(all.subrange(0, all.len() as int) =~= all);
        let mut i: usize = 0;
        while i < self.metadata.len()
            invariant
                0 <= i <= self.metadata@.len(),
                all == pairs_view(self.metadata@),
                lookup_pair(all, key@) == lookup_pair(all.subrange(i as int, all.len() as int), key@),
            decreases self.metadata@.len() - i,
        {
            let ghost rest = all.subrange(i as int, all.len() as int);
            assert(rest.drop_first() =~= all.subrange(i + 1, all.len() as int));
            if str_eq(self.metadata[i].0.as_str(), key) {
                return Some(self.metadata[i].1.clone());
            }
            i = i + 1;
        }
        None
    }
}

/// A top-level entry of a project directory.
pub struct ProjectEntry {
    pub name: String,
    pub is_dir: bool,
    /// The text of the entry when it is a file that could be read.
    pub content: Option<String>,
}

/// A snapshot of a project directory's top-level entries.
pub struct ProjectFiles {
    pub entries: Vec<ProjectEntry>,
}

/// The first entry of that name.
pub open spec fn find_entry(es: Seq<ProjectEntry>, name: Seq<char>) -> Option<ProjectEntry>
    decreases es.len(),
{
    if es.len() == 0 {
        None
    } else if es[0].name@ == name {
        Some(es[0])
    } else {
        find_entry(es.drop_first(), name)
    }
}

/// An entry of that name exists.
pub open spec fn exists_entry(f: ProjectFiles, name: Seq<char>) -> bool {
    find_entry(f.entries@, name) is Some
}

/// An entry of that name exists and is a directory.
pub open spec fn is_dir_entry(f: ProjectFiles, name: Seq<char>) -> bool {
    match find_entry(f.entries@, name) {
        Some(e) => e.is_dir,
        None => false,
    }
}

/// The text of a readable file of that name.
pub open spec fn file_text(f: ProjectFiles, name: Seq<char>) -> Option<Seq<char>> {
    match find_entry(f.entries@, name) {
        Some(e) => if e.is_dir {
            None
        } else {
            opt_view(e.content)
        },
        None => None,
    }
}

impl ProjectFiles {
    fn find(&self, name: &str) -> (r: Option<usize>)
        ensures
            match r {
                Some(i) => i < self.entries@.len() && find_entry(self.entries@, name@) == Some(
                    self.entries@[i as int],
                ),
                None => find_entry(self.entries@, name@) is None,
            },
    {
        let ghost es = self.entries@;
        assert(es.subrange(0, es.len() as int) =~= es);
        let mut i: usize = 0;
        while i < self.entries.len()
            invariant
                0 <= i <= es.len(),
                es == self.entries@,
                find_entry(es, name@) == find_entry(es.subrange(i as int, es.len() as int), name@),
            decreases es.len() - i,
        {
            let ghost rest = es.subrange(i as int, es.len() as int);
            assert(rest.drop_first() =~= es.subrange(i + 1, es.len() as int));
            if str_eq(self.entries[i].name.as_str(), name) {
                return Some(i);
            }
            i = i + 1;
        }
        None
    }

    /// Whether an entry of that name exists.
    pub fn has_entry(&self, name: &str) -> (b: bool)
        ensures
            b == exists_entry(*self, name@),
    {
        self.find(name).is_some()
    }

    /// Whether an entry of that name exists and is a directory.
    pub fn is_dir(&self, name: &str) -> (b: bool)
        ensures
            b == is_dir_entry(*self, name@),
    {
        match self.find(name) {
            Some(i) => self.entries[i].is_dir,
            None => false,
        }
    }

    /// The text of a readable file of that name.
    pub fn read(&self, name: &str) -> (r: Option<String>)
        ensures
            opt_view(r) == file_text(*self, name@),
    {
        match self.find(name) {
            Some(i) => {
                if self.entries[i].is_dir {
                    None
                } else {
                    match &self.entries[i].content {
                        Some(c) => Some(c.clone()),
                        None => None,
                    }
                }
            },
            None => None,
        }
    }
}

// ---------------------------------------------------------------- Dockerfile

/// Whether a trimmed line starts with the instruction `FROM ` in any letter case.
///
/// `str::to_uppercase(line).starts_with("FROM ")` holds exactly when the first
/// four characters are the letters of `from` in either case and the fifth is a
/// space: no other character's upper-case form begins with one of these letters
/// followed by the next.
pub open spec fn is_from_line(t: Seq<char>) -> bool {
    &&& t.len() >= 5
    &&& (t[0] == 'F' || t[0] == 'f')
    &&& (t[1] == 'R' || t[1] == 'r')
    &&& (t[2] == 'O' || t[2] == 'o')
    &&& (t[3] == 'M' || t[3] == 'm')
    &&& t[4] == ' '
}

/// The image named by the first `FROM` line among `lines` (comments skipped).
pub open spec fn first_from_image(lines: Seq<Seq<char>>) -> Option<Seq<char>>
    decreases lines.len(),
{
    if lines.len() == 0 {
        None
    } else {
        let t = trim(lines[0]);
        if !starts_with(t, seq!['#']) && is_from_line(t) {
            Some(take_word(trim_start(t.subrange(5, t.len() as int))))
        } else {
            first_from_image(lines.drop_first())
        }
    }
}

/// The base image of a Dockerfile: the second word of its first `FROM` line.
pub open spec fn base_image_of(content: Seq<char>) -> Option<Seq<char>> {
    first_from_image(lines_of(content))
}

fn is_from_line_exec(t: &Vec<char>) -> (b: bool)
    ensures
        b == is_from_line(t@),
{
    t.len() >= 5 && (t[0] == 'F' || t[0] == 'f') && (t[1] == 'R' || t[1] == 'r') && (t[2] == 'O'
        || t[2] == 'o') && (t[3] == 'M' || t[3] == 'm') && t[4] == ' '
}

/// Extract the base image from a Dockerfile.
///
/// Comment lines are skipped; the image is the word after the first `FROM`
/// instruction (a multi-stage build's `AS` name is not part of it).
pub fn extract_base_image(content: &str) -> (r: Option<String>)
    ensures
        opt_view(r) == base_image_of(content@),
{
    let chars = chars_of(content);
    let lines = lines_exec(chars.as_slice());
    let ghost ls = lines_of(content@);
    assert(ls.subrange(0, ls.len() as int) =~= ls);
    let mut i: usize = 0;
    while i < lines.len()
        invariant
            0 <= i <= lines@.len(),
            ls == lines_of(content@),
            lines@.len() == ls.len(),
            forall|k: int| 0 <= k < lines@.len() ==> #[trigger] lines@[k]@ == ls[k],
            first_from_image(ls) == first_from_image(ls.subrange(i as int, ls.len() as int)),
        decreases lines@.len() - i,
    {
        let ghost rest = ls.subrange(i as int, ls.len() as int);
        assert(rest.drop_first() =~= ls.subrange(i + 1, ls.len() as int));
        assert(rest[0] == lines@[i as int]@);
        let trimmed = trim_chars(lines[i].as_slice());
        let hash = vec!['#'];
        assert(hash@ =~= seq!['#']);
        if !starts_with_exec(trimmed.as_slice(), hash.as_slice()) && is_from_line_exec(&trimmed) {
            let after = slice_chars(trimmed.as_slice(), 5, trimmed.len());
            let rest_ws = trim_start_exec(after.as_slice());
            let word = take_word_exec(rest_ws.as_slice());
            assert(rest.len() > 0);
            assert(first_from_image(rest) == Some(word@));
            let res = string_of(word.as_slice());
            assert(opt_view(Some(res)) == base_image_of(content@));
            return Some(res);
        }
        i = i + 1;
    }
    assert(ls.subrange(i as int, ls.len() as int).len() == 0);
    None
}

// ---------------------------------------------------------------- manifests

/// The facts about a `Cargo.toml` that detection reads.
pub struct ManifestSummary {
    /// The `[workspace]` members, when the manifest has a workspace section.
    pub workspace_members: Option<Vec<String>>,
    /// The manifest has a `[lib]` section.
    pub has_lib: bool,
    /// The number of `[[bin]]` sections.
    pub bin_count: usize,
    /// `package.default-run`.
    pub default_run: Option<String>,
    /// `package.name`.
    pub package_name: Option<String>,
}

/// A manifest summary as plain values.
pub struct ManifestFacts {
    pub workspace_members: Option<Seq<Seq<char>>>,
    pub has_lib: bool,
    pub bin_count: nat,
    pub default_run: Option<Seq<char>>,
    pub package_name: Option<Seq<char>>,
}

impl View for ManifestSummary {
    type V = ManifestFacts;

    open spec fn view(&self) -> ManifestFacts {
        ManifestFacts {
            workspace_members: match self.workspace_members {
                Some(m) => Some(views(m@)),
                None => None,
            },
            has_lib: self.has_lib,
            bin_count: self.bin_count as nat,
            default_run: opt_view(self.default_run),
            package_name: opt_view(self.package_name),
        }
    }
}

/// What `cargo_toml::Manifest::from_str` makes of a text: the facts detection
/// reads, or the parser's error message.
pub uninterp spec fn cargo_manifest(text: Seq<char>) -> Result<ManifestFacts, Seq<char>>;

pub open spec fn manifest_result_view(r: Result<ManifestSummary, String>) -> Result<
    ManifestFacts,
    Seq<char>,
> {
    match r {
        Ok(m) => Ok(m@),
        Err(e) => Err(e@),
    }
}

/// Parses a `Cargo.toml` with `cargo_toml::Manifest::from_str`.
///
/// Trusted: the summary (or the error's `Display` text) is what the parser
/// yields for this text; the parser depends on the text alone.
#[verifier::external_body]
fn parse_cargo_manifest(text: &str) -> (r: Result<ManifestSummary, String>)
    ensures
        manifest_result_view(r) == cargo_manifest(text@),
{
    match cargo_toml::Manifest::from_str(text) {
        Ok(m) => Ok(
            ManifestSummary {
                workspace_members: m.workspace.map(|w| w.members),
                has_lib: m.lib.is_some(),
                bin_count: m.bin.len(),
                default_run: m.package.as_ref().and_then(|p| p.default_run.clone()),
                package_name: m.package.as_ref().map(|p| p.name().to_string()),
            },
        ),
        Err(e) => Err(e.to_string()),
    }
}

/// The detection result for a parsed `Cargo.toml`.
pub open spec fn manifest_detection(m: ManifestFacts) -> DetectionView {
    match m.workspace_members {
        Some(members) => DetectionView {
            project_type: ProjectType::RustWorkspace,
            language_version: Some("stable"@),
            metadata: seq![
                ("type"@, "workspace"@),
                ("members"@, join(members, ", "@)),
                ("member_count"@, decimal(members.len())),
            ],
        },
        None => {
            let (pt, kind) = if m.has_lib {
                (ProjectType::RustLibrary, "library"@)
            } else if m.bin_count > 0 || m.default_run is Some {
                (ProjectType::RustBinary, "binary"@)
            } else {
                (ProjectType::RustBinary, "binary (assumed)"@)
            };
            let base = seq![("type"@, kind)];
            DetectionView {
                project_type: pt,
                language_version: Some("stable"@),
                metadata: match m.package_name {
                    Some(n) => base.push(("name"@, n)),
                    None => base,
                },
            }
        },
    }
}

fn pair(k: &str, v: String) -> (p: (String, String))
    ensures
        p.0@ == k@,
        p.1@ == v@,
{
    (k.to_owned(), v)
}

/// Classifies a parsed `Cargo.toml`: workspace, library or binary.
pub fn classify_manifest(m: &ManifestSummary) -> (r: DetectionResult)
    ensures
        r@ == manifest_detection(m@),
{
    match &m.workspace_members {
        Some(members) => {
            let mut metadata = Vec::new();
            metadata.push(pair("type", "workspace".to_owned()));
            metadata.push(pair("members", join_strings(members, ", ")));
            metadata.push(pair("member_count", usize_to_string(members.len())));
            let r = DetectionResult {
                project_type: ProjectType::RustWorkspace,
                language_version: Some("stable".to_owned()),
                metadata,
            };
            assert(r@.metadata =~= manifest_detection(m@).metadata);
            r
        },
        None => {
            let mut metadata = Vec::new();
            let project_type = if m.has_lib {
                metadata.push(pair("type", "library".to_owned()));
                ProjectType::RustLibrary
            } else if m.bin_count > 0 || m.default_run.is_some() {
                metadata.push(pair("type", "binary".to_owned()));
                ProjectType::RustBinary
            } else {
                metadata.push(pair("type", "binary (assumed)".to_owned()));
                ProjectType::RustBinary
            };
            match &m.package_name {
                Some(n) => {
                    metadata.push(pair("name", n.clone()));
                },
                None => {},
            }
            let r = DetectionResult {
                project_type,
                language_version: Some("stable".to_owned()),
                metadata,
            };
            assert(r@.metadata =~= manifest_detection(m@).metadata);
            r
        },
    }
}

// ---------------------------------------------------------------- detectors

/// The outcome of running a detector.
pub type DetectOutcome = Result<Option<DetectionView>, ErrorView>;

pub open spec fn outcome_view(r: Result<Option<DetectionResult>, CciError>) -> DetectOutcome {
    match r {
        Ok(Some(d)) => Ok(Some(d@)),
        Ok(None) => Ok(None),
        Err(e) => Err(e@),
    }
}

/// Rust projects: a `Cargo.toml` at the root.
pub open spec fn rust_outcome(f: ProjectFiles) -> DetectOutcome {
    if !exists_entry(f, "Cargo.toml"@) {
        Ok(None)
    } else {
        match file_text(f, "Cargo.toml"@) {
            None => Err(ErrorView::Io("Cargo.toml"@)),
            Some(text) => match cargo_manifest(text) {
                Err(e) => Err(ErrorView::CargoToml(e)),
                Ok(m) => Ok(Some(manifest_detection(m))),
            },
        }
    }
}

/// Python projects: `pyproject.toml`, `setup.py` or `requirements.txt`.
pub open spec fn python_outcome(f: ProjectFiles) -> DetectOutcome {
    let pyproject = exists_entry(f, "pyproject.toml"@);
    let setup = exists_entry(f, "setup.py"@);
    let requirements = exists_entry(f, "requirements.txt"@);
    if !pyproject && !setup && !requirements {
        Ok(None)
    } else {
        let metadata = if pyproject {
            seq![("config"@, "pyproject.toml"@)]
        } else if setup {
            seq![("config"@, "setup.py"@)]
        } else {
            Seq::empty()
        };
        let is_app = exists_entry(f, "main.py"@) || exists_entry(f, "__main__.py"@);
        Ok(
            Some(
                DetectionView {
                    project_type: if is_app {
                        ProjectType::PythonApp
                    } else {
                        ProjectType::PythonLibrary
                    },
                    language_version: Some("3.11"@),
                    metadata,
                },
            ),
        )
    }
}

/// The first line that starts with `p`.
pub open spec fn first_line_with(lines: Seq<Seq<char>>, p: Seq<char>) -> Option<Seq<char>>
    decreases lines.len(),
{
    if lines.len() == 0 {
        None
    } else if starts_with(lines[0], p) {
        Some(lines[0])
    } else {
        first_line_with(lines.drop_first(), p)
    }
}

/// The Go version that a `go.mod` declares in its `go` directive.
pub open spec fn go_version_of(text: Seq<char>) -> Option<Seq<char>> {
    match first_line_with(lines_of(text), "go "@) {
        Some(l) => Some(trim(l.subrange(3, l.len() as int))),
        None => None,
    }
}

/// Go projects: a `go.mod` at the root.
pub open spec fn go_outcome(f: ProjectFiles) -> DetectOutcome {
    if !exists_entry(f, "go.mod"@) {
        Ok(None)
    } else {
        let version = match file_text(f, "go.mod"@) {
            Some(t) => go_version_of(t),
            None => None,
        };
        let is_app = exists_entry(f, "main.go"@) || is_dir_entry(f, "cmd"@);
        Ok(
            Some(
                DetectionView {
                    project_type: if is_app {
                        ProjectType::GoApp
                    } else {
                        ProjectType::GoLibrary
                    },
                    language_version: Some("1.21"@),
                    metadata: match version {
                        Some(v) => seq![("go_version"@, v)],
                        None => Seq::empty(),
                    },
                },
            ),
        )
    }
}

proof fn lemma_find_entry(es: Seq<ProjectEntry>, name: Seq<char>)
    ensures
        match find_entry(es, name) {
            Some(e) => exists|i: int|
                0 <= i < es.len() && es[i] == e && (#[trigger] es[i]).name@ == name && forall|j: int|
                    0 <= j < i ==> (#[trigger] es[j]).name@ != name,
            None => forall|j: int| 0 <= j < es.len() ==> (#[trigger] es[j]).name@ != name,
        },
    decreases es.len(),
{
    if es.len() > 0 && es[0].name@ != name {
        lemma_find_entry(es.drop_first(), name);
        assert forall|j: int| 0 < j < es.len() implies es[j] == es.drop_first()[j - 1] by {}
        match find_entry(es.drop_first(), name) {
            Some(e) => {
                let i = choose|i: int|
                    0 <= i < es.drop_first().len() && es.drop_first()[i] == e && (
                    #[trigger] es.drop_first()[i]).name@ == name && forall|j: int|
                        0 <= j < i ==> (#[trigger] es.drop_first()[j]).name@ != name;
                assert(es[i + 1] == e);
                assert forall|j: int| 0 <= j < i + 1 implies (#[trigger] es[j]).name@ != name by {
                    if j > 0 {
                        assert(es[j] == es.drop_first()[j - 1]);
                    }
                }
            },
            None => {},
        }
    }
}

/// A Go project (one with a `go.mod`) is an application when a `main.go`
/// stands at its root or its `cmd` entry is a directory, and a library
/// otherwise; without a `go.mod` the Go detector passes over the project.
pub proof fn law_go_app_or_library(f: ProjectFiles)
    ensures
        (forall|i: int| 0 <= i < f.entries@.len() ==> (#[trigger] f.entries@[i]).name@ != "go.mod"@)
            ==> go_outcome(f) == Ok::<Option<DetectionView>, ErrorView>(None),
        (exists|i: int| 0 <= i < f.entries@.len() && (#[trigger] f.entries@[i]).name@ == "go.mod"@)
            ==> (go_outcome(f) matches Ok(Some(d)) && d.project_type == if (exists|i: int|
            0 <= i < f.entries@.len() && (#[trigger] f.entries@[i]).name@ == "main.go"@) || (exists|i: int|
            0 <= i < f.entries@.len() && (#[trigger] f.entries@[i]).name@ == "cmd"@ && f.entries@[i].is_dir
                && forall|j: int| 0 <= j < i ==> (#[trigger] f.entries@[j]).name@ != "cmd"@) {
            ProjectType::GoApp
        } else {
            ProjectType::GoLibrary
        }),
{
    let es = f.entries@;
    lemma_find_entry(es, "go.mod"@);
    lemma_find_entry(es, "main.go"@);
    lemma_find_entry(es, "cmd"@);
    if exists|i: int| 0 <= i < es.len() && (#[trigger] es[i]).name@ == "cmd"@ && es[i].is_dir && forall|j: int|
        0 <= j < i ==> (#[trigger] es[j]).name@ != "cmd"@ {
        let i = choose|i: int| 0 <= i < es.len() && (#[trigger] es[i]).name@ == "cmd"@ && es[i].is_dir && forall|j: int|
            0 <= j < i ==> (#[trigger] es[j]).name@ != "cmd"@;
        match find_entry(es, "cmd"@) {
            Some(e) => {
                let k = choose|k: int|
                    0 <= k < es.len() && es[k] == e && (#[trigger] es[k]).name@ == "cmd"@ && forall|j: int|
                        0 <= j < k ==> (#[trigger] es[j]).name@ != "cmd"@;
                if k < i {
                    assert(es[k].name@ != "cmd"@);
                } else if i < k {
                    assert(es[i].name@ != "cmd"@);
                }
            },
            None => {
                assert(es[i].name@ != "cmd"@);
            },
        }
    }
}

/// A top-level entry has the name.
pub open spec fn has_named(f: ProjectFiles, name: Seq<char>) -> bool {
    exists|i: int| 0 <= i < f.entries@.len() && (#[trigger] f.entries@[i]).name@ == name
}

proof fn lemma_exists_entry(f: ProjectFiles, name: Seq<char>)
    ensures
        exists_entry(f, name) == has_named(f, name),
{
    lemma_find_entry(f.entries@, name);
}

/// A Python project is one with a `pyproject.toml`, `setup.py` or
/// `requirements.txt`; it is an application when a `main.py` or `__main__.py`
/// stands at its root, and a library otherwise.
pub proof fn law_python_app_or_library(f: ProjectFiles)
    ensures
        !has_named(f, "pyproject.toml"@) && !has_named(f, "setup.py"@) && !has_named(f, "requirements.txt"@)
            ==> python_outcome(f) == Ok::<Option<DetectionView>, ErrorView>(None),
        has_named(f, "pyproject.toml"@) || has_named(f, "setup.py"@) || has_named(f, "requirements.txt"@)
            ==> (python_outcome(f) matches Ok(Some(d)) && d.project_type == if has_named(f, "main.py"@)
            || has_named(f, "__main__.py"@) {
            ProjectType::PythonApp
        } else {
            ProjectType::PythonLibrary
        }),
{
    lemma_exists_entry(f, "pyproject.toml"@);
    lemma_exists_entry(f, "setup.py"@);
    lemma_exists_entry(f, "requirements.txt"@);
    lemma_exists_entry(f, "main.py"@);
    lemma_exists_entry(f, "__main__.py"@);
}

pub open spec fn dockerfile_patterns() -> Seq<Seq<char>> {
    seq!["Dockerfile"@, "dockerfile"@, "Dockerfile.dev"@, "Dockerfile.prod"@, "Dockerfile.build"@]
}

pub open spec fn compose_patterns() -> Seq<Seq<char>> {
    seq!["docker-compose.yml"@, "docker-compose.yaml"@, "compose.yml"@, "compose.yaml"@]
}

/// The Dockerfiles of the project, in the order of the patterns.
pub open spec fn found_dockerfiles(f: ProjectFiles) -> Seq<Seq<char>> {
    dockerfile_patterns().filter(|p: Seq<char>| exists_entry(f, p))
}

/// The first compose file of the project.
pub open spec fn first_existing(f: ProjectFiles, ps: Seq<Seq<char>>) -> Option<Seq<char>>
    decreases ps.len(),
{
    if ps.len() == 0 {
        None
    } else if exists_entry(f, ps[0]) {
        Some(ps[0])
    } else {
        first_existing(f, ps.drop_first())
    }
}

/// The metadata of a Docker project.
pub open spec fn docker_metadata(f: ProjectFiles) -> Seq<(Seq<char>, Seq<char>)> {
    let found = found_dockerfiles(f);
    let compose = first_existing(f, compose_patterns());
    let m0: Seq<(Seq<char>, Seq<char>)> = match compose {
        Some(c) => seq![("compose_file"@, c)],
        None => Seq::empty(),
    };
    let m1 = if found.len() > 0 {
        let primary = found[0];
        let with_primary = m0.push(("dockerfile"@, primary));
        let with_count = if found.len() > 1 {
            with_primary.push(("dockerfile_count"@, decimal(found.len()))).push(
                ("dockerfiles"@, join(found, ", "@)),
            )
        } else {
            with_primary
        };
        match file_text(f, primary) {
            Some(t) => match base_image_of(t) {
                Some(img) => with_count.push(("base_image"@, img)),
                None => with_count,
            },
            None => with_count,
        }
    } else {
        m0
    };
    if compose is Some {
        m1.push(("has_compose"@, "yes"@))
    } else {
        m1
    }
}

/// Docker projects: a Dockerfile or a compose file at the root.
pub open spec fn docker_outcome(f: ProjectFiles) -> DetectOutcome {
    if found_dockerfiles(f).len() == 0 && first_existing(f, compose_patterns()) is None {
        Ok(None)
    } else {
        Ok(
            Some(
                DetectionView {
                    project_type: ProjectType::DockerImage,
                    language_version: None,
                    metadata: docker_metadata(f),
                },
            ),
        )
    }
}

/// Detects Rust projects from `Cargo.toml`.
pub struct RustDetector;

/// Detects Python projects.
pub struct PythonDetector;

/// Detects Go projects from `go.mod`.
pub struct GoDetector;

/// Detects projects that build Docker images.
pub struct DockerDetector;

impl RustDetector {
    pub fn detect(&self, files: &ProjectFiles) -> (r: Result<Option<DetectionResult>, CciError>)
        ensures
            outcome_view(r) == rust_outcome(*files),
    {
        if !files.has_entry("Cargo.toml") {
            return Ok(None);
        }
        let contents = match files.read("Cargo.toml") {
            Some(c) => c,
            None => {
                return Err(CciError::Io("Cargo.toml".to_owned()));
            },
        };
        match parse_cargo_manifest(contents.as_str()) {
            Ok(m) => Ok(Some(classify_manifest(&m))),
            Err(e) => Err(CciError::CargoToml(e)),
        }
    }

    pub fn name(&self) -> (s: &'static str)
        ensures
            s@ == "Rust"@,
    {
        "Rust"
    }
}

impl PythonDetector {
    pub fn detect(&self, files: &ProjectFiles) -> (r: Result<Option<DetectionResult>, CciError>)
        ensures
            outcome_view(r) == python_outcome(*files),
    {
        let has_pyproject = files.has_entry("pyproject.toml");
        let has_setup = files.has_entry("setup.py");
        let has_requirements = files.has_entry("requirements.txt");
        if !has_pyproject && !has_setup && !has_requirements {
            return Ok(None);
        }
        let mut metadata = Vec::new();
        if has_pyproject {
            metadata.push(pair("config", "pyproject.toml".to_owned()));
        } else if has_setup {
            metadata.push(pair("config", "setup.py".to_owned()));
        }
        let is_app = files.has_entry("main.py") || files.has_entry("__main__.py");
        let project_type = if is_app {
            ProjectType::PythonApp
        } else {
            ProjectType::PythonLibrary
        };
        let r = DetectionResult {
            project_type,
            language_version: Some("3.11".to_owned()),
            metadata,
        };
        assert(r@ == python_outcome(*files)->Ok_0->Some_0) by {
            assert(r@.metadata =~= python_outcome(*files)->Ok_0->Some_0.metadata);
        }
        Ok(Some(r))
    }

    pub fn name(&self) -> (s: &'static str)
        ensures
            s@ == "Python"@,
    {
        "Python"
    }
}

/// The Go version declared in a `go.mod` text.
pub fn parse_go_version(text: &str) -> (r: Option<String>)
    ensures
        opt_view(r) == go_version_of(text@),
{
    let chars = chars_of(text);
    let lines = lines_exec(chars.as_slice());
    let ghost ls = lines_of(text@);
    proof {
        reveal_strlit("go ");
    }
    assert(ls.subrange(0, ls.len() as int) =~= ls);
    let prefix = chars_of("go ");
    let mut i: usize = 0;
    while i < lines.len()
        invariant
            0 <= i <= lines@.len(),
            ls == lines_of(text@),
            lines@.len() == ls.len(),
            prefix@ == "go "@,
            prefix@.len() == 3,
            forall|k: int| 0 <= k < lines@.len() ==> #[trigger] lines@[k]@ == ls[k],
            first_line_with(ls, "go "@) == first_line_with(
                ls.subrange(i as int, ls.len() as int),
                "go "@,
            ),
        decreases lines@.len() - i,
    {
        let ghost rest = ls.subrange(i as int, ls.len() as int);
        assert(rest.drop_first() =~= ls.subrange(i + 1, ls.len() as int));
        assert(rest[0] == lines@[i as int]@);
        if starts_with_exec(lines[i].as_slice(), prefix.as_slice()) {
            let after = slice_chars(lines[i].as_slice(), 3, lines[i].len());
            let v = trim_chars(after.as_slice());
            assert(rest.len() > 0);
            assert(first_line_with(rest, "go "@) == Some(lines@[i as int]@));
            let res = string_of(v.as_slice());
            assert(opt_view(Some(res)) == go_version_of(text@));
            return Some(res);
        }
        i = i + 1;
    }
    assert(ls.subrange(i as int, ls.len() as int).len() == 0);
    None
}

impl GoDetector {
    pub fn detect(&self, files: &ProjectFiles) -> (r: Result<Option<DetectionResult>, CciError>)
        ensures
            outcome_view(r) == go_outcome(*files),
    {
        if !files.has_entry("go.mod") {
            return Ok(None);
        }
        let mut metadata = Vec::new();
        let version = match files.read("go.mod") {
            Some(t) => parse_go_version(t.as_str()),
            None => None,
        };
        match version {
            Some(v) => {
                metadata.push(pair("go_version", v));
            },
            None => {},
        }
        let is_app = files.has_entry("main.go") || files.is_dir("cmd");
        let project_type = if is_app {
            ProjectType::GoApp
        } else {
            ProjectType::GoLibrary
        };
        let r = DetectionResult {
            project_type,
            language_version: Some("1.21".to_owned()),
            metadata,
        };
        assert(r@ == go_outcome(*files)->Ok_0->Some_0) by {
            assert(r@.metadata =~= go_outcome(*files)->Ok_0->Some_0.metadata);
        }
        Ok(Some(r))
    }

    pub fn name(&self) -> (s: &'static str)
        ensures
            s@ == "Go"@,
    {
        "Go"
    }
}

fn docker_patterns_exec() -> (v: Vec<&'static str>)
    ensures
        v@.map_values(|s: &str| s@) == dockerfile_patterns(),
{
    let v = vec!["Dockerfile", "dockerfile", "Dockerfile.dev", "Dockerfile.prod", "Dockerfile.build"];
    assert(v@.map_values(|s: &str| s@) =~= dockerfile_patterns());
    v
}

fn compose_patterns_exec() -> (v: Vec<&'static str>)
    ensures
        v@.map_values(|s: &str| s@) == compose_patterns(),
{
    let v = vec!["docker-compose.yml", "docker-compose.yaml", "compose.yml", "compose.yaml"];
    assert(v@.map_values(|s: &str| s@) =~= compose_patterns());
    v
}

impl DockerDetector {
    pub fn detect(&self, files: &ProjectFiles) -> (r: Result<Option<DetectionResult>, CciError>)
        ensures
            outcome_view(r) == docker_outcome(*files),
    {
        let patterns = docker_patterns_exec();
        let ghost pv = dockerfile_patterns();
        let ghost pred = |p: Seq<char>| exists_entry(*files, p);
        let mut found: Vec<String> = Vec::new();
        let mut i: usize = 0;
        while i < patterns.len()
            invariant
                0 <= i <= patterns@.len(),
                patterns@.map_values(|s: &str| s@) == pv,
                pv == dockerfile_patterns(),
                pred == (|p: Seq<char>| exists_entry(*files, p)),
                views(found@) == pv.take(i as int).filter(pred),
            decreases patterns@.len() - i,
        {
            assert(pv.take(i + 1).drop_last() =~= pv.take(i as int));
            reveal_with_fuel(Seq::<_>::filter, 1);
            assert(patterns@[i as int]@ == pv[i as int]);
            if files.has_entry(patterns[i]) {
                found.push(patterns[i].to_owned());
                assert(views(found@) =~= pv.take(i as int).filter(pred).push(pv[i as int]));
            }
            i = i + 1;
        }
        assert(pv.take(pv.len() as int) =~= pv);
        assert(views(found@) == found_dockerfiles(*files));
        let compose = compose_patterns_exec();
        let ghost cv = compose_patterns();
        assert(cv.subrange(0, cv.len() as int) =~= cv);
        let mut j: usize = 0;
        while j < compose.len() && !files.has_entry(compose[j])
            invariant
                0 <= j <= compose@.len(),
                compose@.map_values(|s: &str| s@) == cv,
                cv == compose_patterns(),
                first_existing(*files, cv) == first_existing(
                    *files,
                    cv.subrange(j as int, cv.len() as int),
                ),
            decreases compose@.len() - j,
        {
            let ghost rest = cv.subrange(j as int, cv.len() as int);
            assert(rest.drop_first() =~= cv.subrange(j + 1, cv.len() as int));
            assert(compose@[j as int]@ == cv[j as int]);
            j = j + 1;
        }
        let compose_file: Option<&str> = if j < compose.len() {
            Some(compose[j])
        } else {
            None
        };
        assert(match compose_file {
            Some(c) => first_existing(*files, cv) == Some(c@),
            None => first_existing(*files, cv) is None,
        }) by {
            if j < compose@.len() {
                assert(compose@[j as int]@ == cv[j as int]);
            } else {
                assert(cv.subrange(j as int, cv.len() as int).len() == 0);
            }
        }
        if found.len() == 0 && compose_file.is_none() {
            return Ok(None);
        }
        let mut metadata: Vec<(String, String)> = Vec::new();
        match compose_file {
            Some(c) => {
                metadata.push(pair("compose_file", c.to_owned()));
            },
            None => {},
        }
        if found.len() > 0 {
            let primary = found[0].clone();
            metadata.push(pair("dockerfile", primary.clone()));
            if found.len() > 1 {
                metadata.push(pair("dockerfile_count", usize_to_string(found.len())));
                metadata.push(pair("dockerfiles", join_strings(&found, ", ")));
            }
            match files.read(primary.as_str()) {
                Some(contents) => {
                    match extract_base_image(contents.as_str()) {
                        Some(img) => {
                            metadata.push(pair("base_image", img));
                        },
                        None => {},
                    }
                },
                None => {},
            }
        }
        if compose_file.is_some() {
            metadata.push(pair("has_compose", "yes".to_owned()));
        }
        let r = DetectionResult { project_type: ProjectType::DockerImage, language_version: None, metadata };
        assert(r@.metadata =~= docker_metadata(*files));
        Ok(Some(r))
    }

    pub fn name(&self) -> (s: &'static str)
        ensures
            s@ == "Docker"@,
    {
        "Docker"
    }
}

// ---------------------------------------------------------------- registry

/// The built-in detectors.
#[derive(PartialEq, Eq, Structural, Clone, Copy, Debug)]
pub enum Detector {
    Rust,
    Python,
    Go,
    Docker,
}

/// What a detector makes of a directory.
pub open spec fn detector_outcome(d: Detector, f: ProjectFiles) -> DetectOutcome {
    match d {
        Detector::Rust => rust_outcome(f),
        Detector::Python => python_outcome(f),
        Detector::Go => go_outcome(f),
        Detector::Docker => docker_outcome(f),
    }
}

pub open spec fn detector_name(d: Detector) -> Seq<char> {
    match d {
        Detector::Rust => "Rust"@,
        Detector::Python => "Python"@,
        Detector::Go => "Go"@,
        Detector::Docker => "Docker"@,
    }
}

impl Detector {
    /// Runs this detector on a directory snapshot.
    pub fn detect(&self, files: &ProjectFiles) -> (r: Result<Option<DetectionResult>, CciError>)
        ensures
            outcome_view(r) == detector_outcome(*self, *files),
    {
        match self {
            Detector::Rust => RustDetector.detect(files),
            Detector::Python => PythonDetector.detect(files),
            Detector::Go => GoDetector.detect(files),
            Detector::Docker => DockerDetector.detect(files),
        }
    }

    /// The detector's name.
    pub fn name(&self) -> (s: &'static str)
        ensures
            s@ == detector_name(*self),
    {
        match self {
            Detector::Rust => "Rust",
            Detector::Python => "Python",
            Detector::Go => "Go",
            Detector::Docker => "Docker",
        }
    }
}

/// The result of the first detector, in order, that recognises the project; a
/// detector's error ends the search.
pub open spec fn registry_outcome(ds: Seq<Detector>, f: ProjectFiles) -> Result<
    DetectionView,
    ErrorView,
>
    decreases ds.len(),
{
    if ds.len() == 0 {
        Err(ErrorView::DetectionFailed)
    } else {
        match detector_outcome(ds[0], f) {
            Err(e) => Err(e),
            Ok(Some(r)) => Ok(r),
            Ok(None) => registry_outcome(ds.drop_first(), f),
        }
    }
}

/// The registry's answer is that of the first detector, in registration order,
/// that does not pass over the project: the project it recognised, or the
/// error it met; the detectors after it do not count. When every detector
/// passes over the project, detection fails.
pub proof fn law_registry_first_match(ds: Seq<Detector>, f: ProjectFiles, k: int)
    ensures
        0 <= k < ds.len() && (forall|j: int| 0 <= j < k ==> #[trigger] detector_outcome(ds[j], f) == Ok::<
            Option<DetectionView>,
            ErrorView,
        >(None)) ==> match detector_outcome(ds[k], f) {
            Ok(Some(r)) => registry_outcome(ds, f) == Ok::<DetectionView, ErrorView>(r),
            Err(e) => registry_outcome(ds, f) == Err::<DetectionView, ErrorView>(e),
            Ok(None) => registry_outcome(ds, f) == registry_outcome(ds.skip(k + 1), f),
        },
        (forall|j: int| 0 <= j < ds.len() ==> #[trigger] detector_outcome(ds[j], f) == Ok::<
            Option<DetectionView>,
            ErrorView,
        >(None)) ==> registry_outcome(ds, f) == Err::<DetectionView, ErrorView>(ErrorView::DetectionFailed),
    decreases ds.len(),
{
    if ds.len() > 0 {
        let rest = ds.drop_first();
        law_registry_first_match(rest, f, k - 1);
        assert forall|j: int| 0 <= j < rest.len() implies rest[j] == ds[j + 1] by {}
        if 0 < k < ds.len() && (forall|j: int| 0 <= j < k ==> #[trigger] detector_outcome(ds[j], f) == Ok::<
            Option<DetectionView>,
            ErrorView,
        >(None)) {
            assert(detector_outcome(ds[0], f) == Ok::<Option<DetectionView>, ErrorView>(None));
            assert forall|j: int| 0 <= j < k - 1 implies #[trigger] detector_outcome(rest[j], f) == Ok::<
                Option<DetectionView>,
                ErrorView,
            >(None) by {
                assert(rest[j] == ds[j + 1]);
            }
            assert(rest[k - 1] == ds[k]);
            assert(rest.skip(k) =~= ds.skip(k + 1));
        }
        if k == 0 {
            assert(ds.skip(1) =~= rest);
        }
        if forall|j: int| 0 <= j < ds.len() ==> #[trigger] detector_outcome(ds[j], f) == Ok::<
            Option<DetectionView>,
            ErrorView,
        >(None) {
            assert(detector_outcome(ds[0], f) == Ok::<Option<DetectionView>, ErrorView>(None));
            assert forall|j: int| 0 <= j < rest.len() implies #[trigger] detector_outcome(rest[j], f) == Ok::<
                Option<DetectionView>,
                ErrorView,
            >(None) by {
                assert(rest[j] == ds[j + 1]);
            }
        }
    }
}

pub open spec fn result_view(r: Result<DetectionResult, CciError>) -> Result<
    DetectionView,
    ErrorView,
> {
    match r {
        Ok(d) => Ok(d@),
        Err(e) => Err(e@),
    }
}

/// The built-in detectors, most specific first.
pub open spec fn builtin_detectors() -> Seq<Detector> {
    seq![Detector::Rust, Detector::Python, Detector::Go, Detector::Docker]
}

/// Registry for all project detectors.
pub struct DetectorRegistry {
    detectors: Vec<Detector>,
}

impl View for DetectorRegistry {
    type V = Seq<Detector>;

    closed spec fn view(&self) -> Seq<Detector> {
        self.detectors@
    }
}

impl DetectorRegistry {
    /// A registry with the built-in detectors: Rust, Python, Go, Docker.
    pub fn new() -> (r: Self)
        ensures
            r@ == builtin_detectors(),
    {
        let mut registry = DetectorRegistry { detectors: Vec::new() };
        registry.register(Detector::Rust);
        registry.register(Detector::Python);
        registry.register(Detector::Go);
        registry.register(Detector::Docker);
        assert(registry@ =~= builtin_detectors());
        registry
    }

    /// Adds a detector after the registered ones.
    pub fn register(&mut self, detector: Detector)
        ensures
            final(self)@ == old(self)@.push(detector),
    {
        self.detectors.push(detector);
    }

    /// The result of the first detector that recognises the project.
    pub fn detect(&self, files: &ProjectFiles) -> (r: Result<DetectionResult, CciError>)
        ensures
            result_view(r) == registry_outcome(self@, *files),
    {
        let ghost ds = self@;
        assert(ds.subrange(0, ds.len() as int) =~= ds);
        let mut i: usize = 0;
        while i < self.detectors.len()
            invariant
                0 <= i <= ds.len(),
                ds == self@,
                registry_outcome(ds, *files) == registry_outcome(
                    ds.subrange(i as int, ds.len() as int),
                    *files,
                ),
            decreases ds.len() - i,
        {
            let ghost rest = ds.subrange(i as int, ds.len() as int);
            assert(rest.drop_first() =~= ds.subrange(i + 1, ds.len() as int));
            assert(rest[0] == self.detectors@[i as int]);
            match self.detectors[i].detect(files) {
                Err(e) => {
                    return Err(e);
                },
                Ok(Some(r)) => {
                    return Ok(r);
                },
                Ok(None) => {},
            }
            i = i + 1;
        }
        assert(ds.subrange(i as int, ds.len() as int).len() == 0);
        Err(CciError::DetectionFailed)
    }

    /// The names of the registered detectors, in order.
    pub fn detector_names(&self) -> (names: Vec<&'static str>)
        ensures
            names@.len() == self@.len(),
            forall|k: int| 0 <= k < names@.len() ==> #[trigger] names@[k]@ == detector_name(self@[k]),
    {
        let mut names: Vec<&'static str> = Vec::new();
        let mut i: usize = 0;
        while i < self.detectors.len()
            invariant
                0 <= i <= self@.len(),
                names@.len() == i,
                forall|k: int| 0 <= k < i ==> #[trigger] names@[k]@ == detector_name(self@[k]),
            decreases self@.len() - i,
        {
            names.push(self.detectors[i].name());
            i = i + 1;
        }
        names
    }
}

} // verus!
