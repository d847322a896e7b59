//! Game libraries listed by a version manifest, and which of them are native.
use vstd::prelude::*;

use crate::download::hash_matches;
use crate::download::needs_fetch;
use crate::paths::{file_name, file_name_of, join_path, path_join};
use crate::rules::{allows_os, names_os, native_extension, native_extension_of, ActionType, OsName, Rule};
use crate::text::{contains_seq, contains_text};

verus! {

/// Where a library artifact is found and how it is checked.
#[derive(Clone, Debug)]
pub struct Metadata {
    pub path: Option<String>,
    pub sha1: String,
    pub size: usize,
    pub url: String,
}

#[derive(Clone, Debug)]
pub struct LibraryArtifact {
    pub artifact: Metadata,
}

/// One library of a version manifest.
#[derive(Clone, Debug)]
pub struct Library {
    pub downloads: LibraryArtifact,
    pub name: String,
    pub rules: Option<Vec<Rule>>,
}

/// The rules of a library, empty when it has none.
pub open spec fn library_rules(library: Library) -> Seq<Rule> {
    match library.rules {
        Some(rules) => rules@,
        None => Seq::empty(),
    }
}

/// Some rule of the library allows `os`: its native files are to be unpacked.
pub open spec fn processes_native(library: Library, os: OsName) -> bool {
    exists|i: int| 0 <= i < library_rules(library).len() && allows_os(#[trigger] library_rules(library)[i], os)
}

/// Some rule of the library names an operating system: it is a native library.
pub open spec fn is_native(library: Library) -> bool {
    exists|i: int| 0 <= i < library_rules(library).len() && names_os(#[trigger] library_rules(library)[i])
}

/// Classifies `library` for `current_os_type`: whether its natives are processed,
/// whether it is native at all, and the extension of its native files (empty
/// when it is not native).
pub fn os_match(library: &Library, current_os_type: OsName) -> (r: (bool, bool, &'static str))
    ensures
        r.0 == processes_native(*library, current_os_type),
        r.1 == is_native(*library),
        r.2@ == (if is_native(*library) { native_extension(current_os_type) } else { ""@ }),
{
    let mut process_native = false;
    let mut is_native_library = false;
    let mut library_extension_type = "";
    if let Some(rule) = &library.rules {
        let mut i: usize = 0;
        while i < rule.len()
            invariant
                library.rules == Some(*rule),
                i <= rule.len(),
                process_native == exists|k: int| 0 <= k < i && allows_os(#[trigger] rule@[k], current_os_type),
                is_native_library == exists|k: int| 0 <= k < i && names_os(#[trigger] rule@[k]),
                library_extension_type@ == (if is_native_library { native_extension(current_os_type) } else { ""@ }),
            decreases rule.len() - i,
        {
            let x = &rule[i];
            if let Some(os) = &x.os {
                if let Some(name) = os.name {
                    if current_os_type == name && x.action == ActionType::Allow {
                        process_native = true;
                    }
                    is_native_library = true;
                    library_extension_type = native_extension_of(current_os_type);
                }
            }
            proof {
                assert(names_os(rule@[i as int]) == (x.os matches Some(o) && o.name is Some));
            }
            i = i + 1;
        }
        assert(library_rules(*library) == rule@);
    }
    (process_native, is_native_library, library_extension_type)
}

/// What the download step plans for one library with an artifact path.
#[derive(Debug)]
pub struct LibraryPlan {
    /// Where the artifact goes: its path under the library folder.
    pub path: String,
    pub url: String,
    pub sha1: String,
    pub size: usize,
    pub process_native: bool,
    pub is_native: bool,
    /// The extension of native files to unpack; empty for a non-native library.
    pub extension: String,
}

/// A plan as plain values: path, URL, SHA-1, size, whether natives are
/// processed, whether the library is native, native extension.
pub open spec fn plan_view(p: LibraryPlan) -> (Seq<char>, Seq<char>, Seq<char>, usize, bool, bool, Seq<char>) {
    (p.path@, p.url@, p.sha1@, p.size, p.process_native, p.is_native, p.extension@)
}

/// The plans for `libraries` placed under `folder` on `os`, in order; a library
/// without an artifact path gets none.
pub open spec fn plans_of(libraries: Seq<Library>, folder: Seq<char>, os: OsName) -> Seq<(Seq<char>, Seq<char>, Seq<char>, usize, bool, bool, Seq<char>)>
    decreases libraries.len(),
{
    if libraries.len() == 0 {
        Seq::empty()
    } else {
        let prev = plans_of(libraries.drop_last(), folder, os);
        let l = libraries.last();
        let a = l.downloads.artifact;
        match a.path {
            None => prev,
            Some(p) => prev.push((
                path_join(folder, p@),
                a.url@,
                a.sha1@,
                a.size,
                processes_native(l, os),
                is_native(l),
                if is_native(l) { native_extension(os) } else { ""@ },
            )),
        }
    }
}

/// The plan of a library with an artifact path, added after `libraries`, is
/// the last plan. When a rule of the library names an operating system it is
/// native, and its natives are unpacked by their extension on the running
/// system: `.dylib` on macOS, `.so` on Linux, `.dll` on Windows. A library that
/// no rule ties to a system has no native extension. Its natives are
/// processed exactly when a rule allows the running system.
pub proof fn law_native_extension_follows_os(libraries: Seq<Library>, l: Library, folder: Seq<char>, os: OsName)
    requires
        l.downloads.artifact.path is Some,
    ensures
        plans_of(libraries.push(l), folder, os).len() == plans_of(libraries, folder, os).len() + 1,
        plans_of(libraries.push(l), folder, os).last().0 == path_join(folder, l.downloads.artifact.path->0@),
        plans_of(libraries.push(l), folder, os).last().5 == is_native(l),
        plans_of(libraries.push(l), folder, os).last().4 == (exists|i: int|
            0 <= i < library_rules(l).len() && (#[trigger] library_rules(l)[i]).os is Some && library_rules(l)[i].os->0.name == Some(os)
                && library_rules(l)[i].action == ActionType::Allow),
        is_native(l) && (os == OsName::Osx || os == OsName::OsxArm64) ==> plans_of(libraries.push(l), folder, os).last().6 == ".dylib"@,
        is_native(l) && (os == OsName::Linux || os == OsName::LinuxArm64 || os == OsName::LinuxArm32) ==> plans_of(
            libraries.push(l),
            folder,
            os,
        ).last().6 == ".so"@,
        is_native(l) && os == OsName::Windows ==> plans_of(libraries.push(l), folder, os).last().6 == ".dll"@,
        !is_native(l) ==> plans_of(libraries.push(l), folder, os).last().6 == Seq::<char>::empty(),
{
    reveal_strlit("");
    assert(libraries.push(l).drop_last() =~= libraries);
    assert(libraries.push(l).last() == l);
    let p = plans_of(libraries.push(l), folder, os).last();
    assert(p.4 == processes_native(l, os));
    if p.4 {
        let i = choose|i: int| 0 <= i < library_rules(l).len() && allows_os(#[trigger] library_rules(l)[i], os);
        assert(library_rules(l)[i].os is Some && library_rules(l)[i].os->0.name == Some(os));
    }
    if exists|i: int|
        0 <= i < library_rules(l).len() && (#[trigger] library_rules(l)[i]).os is Some && library_rules(l)[i].os->0.name == Some(os)
            && library_rules(l)[i].action == ActionType::Allow {
        let i = choose|i: int|
            0 <= i < library_rules(l).len() && (#[trigger] library_rules(l)[i]).os is Some && library_rules(l)[i].os->0.name == Some(os)
                && library_rules(l)[i].action == ActionType::Allow;
        assert(allows_os(library_rules(l)[i], os));
    }
}

/// Plans the download of `libraries` into `folder` on `os`; see `plans_of`.
pub fn library_plans(libraries: &[Library], folder: &str, os: OsName) -> (r: Vec<LibraryPlan>)
    ensures
        r@.map_values(|p: LibraryPlan| plan_view(p)) == plans_of(libraries@, folder@, os),
{
    let mut out: Vec<LibraryPlan> = Vec::new();
    let mut i: usize = 0;
    while i < libraries.len()
        invariant
            i <= libraries@.len(),
            out@.map_values(|p: LibraryPlan| plan_view(p)) == plans_of(libraries@.take(i as int), folder@, os),
        decreases libraries@.len() - i,
    {
        assert(libraries@.take(i + 1).drop_last() =~= libraries@.take(i as int));
        let library = &libraries[i];
        let a = &library.downloads.artifact;
        match &a.path {
            None => {},
            Some(p) => {
                let (process_native, is_native_library, extension) = os_match(library, os);
                let plan = LibraryPlan {
                    path: join_path(folder, p.as_str()),
                    url: a.url.clone(),
                    sha1: a.sha1.clone(),
                    size: a.size,
                    process_native,
                    is_native: is_native_library,
                    extension: String::from_str(extension),
                };
                let ghost prev = out@.map_values(|p: LibraryPlan| plan_view(p));
                out.push(plan);
                assert(out@.map_values(|p: LibraryPlan| plan_view(p)) =~= prev.push(plan_view(plan)));
            },
        }
        i = i + 1;
    }
    assert(libraries@.take(libraries@.len() as int) =~= libraries@);
    out
}

/// What to do for one planned library.
#[derive(Clone, Copy, Debug, PartialEq, Eq, Structural)]
pub struct LibraryAction {
    /// Fetch the artifact to its path.
    pub fetch: bool,
    /// Fetch the artifact and unpack its native files.
    pub unpack_native: bool,
    /// Count the artifact's size in the download total.
    pub counted: bool,
}

/// The artifact of a plan is checked against its SHA-1 only when the library
/// is not native at all.
pub open spec fn checks_hash(p: LibraryPlan) -> bool {
    !p.process_native && !p.is_native
}

/// The artifact is to be fetched again: it is missing, or it is checked and
/// does not have its SHA-1.
pub open spec fn redownload(p: LibraryPlan, exists: bool, contents: Option<Seq<u8>>) -> bool {
    if !exists {
        true
    } else if checks_hash(p) {
        !hash_matches(contents->0, p.sha1@)
    } else {
        false
    }
}

/// Decides what to do for a planned library, given whether its artifact
/// exists and, when it exists and is checked, its contents. A library whose
/// natives are processed is always fetched and unpacked, and counted; another
/// one is fetched and counted when it is to be fetched again.
pub fn library_action(plan: &LibraryPlan, exists: bool, contents: Option<&[u8]>) -> (r: LibraryAction)
    requires
        exists && checks_hash(*plan) ==> contents is Some,
    ensures
        ({
            let c = match contents {
                Some(c) => Some(c@),
                None => None,
            };
            let again = redownload(*plan, exists, c);
            &&& r.fetch == (!plan.process_native && again)
            &&& r.unpack_native == plan.process_native
            &&& r.counted == ((!plan.process_native && again) || plan.process_native)
        }),
{
    let again = if !exists {
        true
    } else if !plan.process_native && !plan.is_native {
        match contents {
            Some(c) => needs_fetch(Some(c), plan.sha1.as_str()),
            None => true,
        }
    } else {
        false
    };
    let fetch = !plan.process_native && again;
    LibraryAction { fetch, unpack_native: plan.process_native, counted: fetch || plan.process_native }
}

/// A missing artifact is always fetched again. A present artifact of a library
/// that is not native at all is fetched again exactly when it does not have
/// its SHA-1; a present artifact of a native library is not checked and not
/// fetched again.
pub proof fn law_redownload_when_missing_or_wrong(p: LibraryPlan, contents: Seq<u8>)
    ensures
        redownload(p, false, Some(contents)),
        redownload(p, false, None),
        !p.process_native && !p.is_native ==> (redownload(p, true, Some(contents)) <==> !hash_matches(contents, p.sha1@)),
        p.process_native || p.is_native ==> !redownload(p, true, Some(contents)) && !redownload(p, true, None),
{
}

/// What to do with one entry of a native library's archive.
#[derive(Debug)]
pub enum NativeEntry {
    /// Leave the entry in the temporary folder.
    Skip,
    /// Move the unpacked entry to this path.
    MoveTo(String),
    /// The entry is to be moved but its path has no file name.
    NoFileName,
}

/// An archive entry is kept when its name holds the native extension or
/// `.sha1`, and does not hold `.git`.
pub open spec fn keeps_native(entry: Seq<char>, extension: Seq<char>) -> bool {
    (contains_seq(entry, extension) || contains_seq(entry, ".sha1"@)) && !contains_seq(entry, ".git"@)
}

/// Where the archive entry `entry` of a native library goes: kept entries move
/// to `native_folder` under their file name.
pub fn native_entry_target(native_folder: &str, entry: &str, extension: &str) -> (r: NativeEntry)
    ensures
        !keeps_native(entry@, extension@) ==> r is Skip,
        keeps_native(entry@, extension@) ==> match file_name_of(entry@) {
            None => r is NoFileName,
            Some(n) => r matches NativeEntry::MoveTo(t) && t@ == path_join(native_folder@, n),
        },
{
    let keep = (contains_text(entry, extension) || contains_text(entry, ".sha1")) && !contains_text(entry, ".git");
    if !keep {
        return NativeEntry::Skip;
    }
    match file_name(entry) {
        None => NativeEntry::NoFileName,
        Some(n) => NativeEntry::MoveTo(join_path(native_folder, n.as_str())),
    }
}

/// The operating systems `os_version` tells apart.
#[derive(Clone, Copy, Debug, PartialEq, Eq, Structural)]
pub enum DetectedOs {
    Linux,
    Windows,
    MacOS,
    Other,
}

/// The manifest's name for the detected operating system; `None` for one the
/// launcher does not support.
pub fn os_name_of(os: DetectedOs) -> (r: Option<OsName>)
    ensures
        r == match os {
            DetectedOs::Linux => Some(OsName::Linux),
            DetectedOs::Windows => Some(OsName::Windows),
            DetectedOs::MacOS => Some(OsName::Osx),
            DetectedOs::Other => None,
        },
{
    match os {
        DetectedOs::Linux => Some(OsName::Linux),
        DetectedOs::Windows => Some(OsName::Windows),
        DetectedOs::MacOS => Some(OsName::Osx),
        DetectedOs::Other => None,
    }
}

} // verus!
