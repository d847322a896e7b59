//! Libraries of a version manifest as the native front end downloads them.
use vstd::prelude::*;

use crate::download::{hash_matches, needs_fetch};
use crate::library::DetectedOs;
use crate::paths::{join_path, path_join};

verus! {

/// Operating systems the native front end runs on.
#[derive(Clone, Copy, Debug, PartialEq, Eq, Structural)]
pub enum OsName {
    Osx,
    Linux,
    Windows,
}

/// What a rule does when it applies.
#[derive(Clone, Copy, Debug, PartialEq, Eq, Structural)]
pub enum ActionType {
    Allow,
    Disallow,
}

/// The operating-system condition of a rule.
#[derive(Clone, Copy, Debug, PartialEq, Eq, Structural)]
pub struct Os {
    pub name: Option<OsName>,
}

/// One manifest rule.
#[derive(Clone, Copy, Debug, PartialEq, Eq, Structural)]
pub struct Rule {
    pub action: ActionType,
    pub os: Option<Os>,
}

/// Where a library artifact is found and how it is checked.
#[derive(Debug)]
pub struct LibraryMetadata {
    pub path: String,
    pub sha1: String,
    pub size: usize,
    pub url: String,
}

#[derive(Debug)]
pub struct LibraryArtifact {
    pub artifact: LibraryMetadata,
}

/// One library of a version manifest.
#[derive(Debug)]
pub struct Library {
    pub downloads: LibraryArtifact,
    pub name: String,
    pub rules: Option<Vec<Rule>>,
}

/// The rules of a library, empty when it has none.
pub open spec fn library_rules(library: Library) -> Seq<Rule> {
    match library.rules {
        Some(rules) => rules@,
        None => Seq::empty(),
    }
}

/// The rule names an operating system.
pub open spec fn names_os(rule: Rule) -> bool {
    rule.os matches Some(os) && os.name is Some
}

/// The rule names `os` and allows it.
pub open spec fn allows_os(rule: Rule, os: OsName) -> bool {
    names_os(rule) && rule.os->0.name->0 == os && rule.action == ActionType::Allow
}

/// The file extension of native libraries on `os`.
pub open spec fn native_extension(os: OsName) -> Seq<char> {
    match os {
        OsName::Osx => ".dylib"@,
        OsName::Linux => ".so"@,
        OsName::Windows => ".dll"@,
    }
}

/// Some rule of the library allows `os`: its native files are to be unpacked.
pub open spec fn processes_native(library: Library, os: OsName) -> bool {
    exists|i: int| 0 <= i < library_rules(library).len() && allows_os(#[trigger] library_rules(library)[i], os)
}

/// Some rule of the library names an operating system: it is a native library.
pub open spec fn is_native(library: Library) -> bool {
    exists|i: int| 0 <= i < library_rules(library).len() && names_os(#[trigger] library_rules(library)[i])
}

/// Classifies `library` for `current_os_type`: whether its natives are processed,
/// whether it is native at all, and the extension of its native files (empty
/// when it is not native).
pub fn os_match(library: &Library, current_os_type: &OsName) -> (r: (bool, bool, &'static str))
    ensures
        r.0 == processes_native(*library, *current_os_type),
        r.1 == is_native(*library),
        r.2@ == (if is_native(*library) { native_extension(*current_os_type) } else { ""@ }),
{
    let mut process_native = false;
    let mut is_native_library = false;
    let mut library_extension_type = "";
    if let Some(rule) = &library.rules {
        let mut i: usize = 0;
        while i < rule.len()
            invariant
                library.rules == Some(*rule),
                i <= rule.len(),
                process_native == exists|k: int| 0 <= k < i && allows_os(#[trigger] rule@[k], *current_os_type),
                is_native_library == exists|k: int| 0 <= k < i && names_os(#[trigger] rule@[k]),
                library_extension_type@ == (if is_native_library { native_extension(*current_os_type) } else { ""@ }),
            decreases rule.len() - i,
        {
            let x = rule[i];
            if let Some(os) = x.os {
                if let Some(name) = os.name {
                    if *current_os_type == name {
                        if x.action == ActionType::Allow {
                            process_native = true;
                        }
                    }
                    is_native_library = true;
                    library_extension_type = match current_os_type {
                        OsName::Osx => ".dylib",
                        OsName::Linux => ".so",
                        OsName::Windows => ".dll",
                    };
                }
            }
            i = i + 1;
        }
        assert(library_rules(*library) == rule@);
    }
    (process_native, is_native_library, library_extension_type)
}

/// What the native front end plans for one library: the path of its artifact
/// under the library folder, its URL, SHA-1 and size, and how it is classified.
#[derive(Debug)]
pub struct NativeLibraryPlan {
    pub path: String,
    pub url: String,
    pub sha1: String,
    pub size: usize,
    pub process_native: bool,
    pub is_native: bool,
    pub extension: String,
}

/// The plan for `library` placed under `folder` on `os`.
pub open spec fn native_plan_of(library: Library, folder: Seq<char>, os: OsName) -> (Seq<char>, Seq<char>, Seq<char>, usize, bool, bool, Seq<char>) {
    let a = library.downloads.artifact;
    (
        path_join(folder, a.path@),
        a.url@,
        a.sha1@,
        a.size,
        processes_native(library, os),
        is_native(library),
        if is_native(library) { native_extension(os) } else { ""@ },
    )
}

/// Plans one library placed under `folder` on `os`; see `native_plan_of`.
pub fn native_library_plan(library: &Library, folder: &str, os: &OsName) -> (r: NativeLibraryPlan)
    ensures
        (r.path@, r.url@, r.sha1@, r.size, r.process_native, r.is_native, r.extension@) == native_plan_of(*library, folder@, *os),
{
    let (process_native, is_native_library, extension) = os_match(library, os);
    let a = &library.downloads.artifact;
    NativeLibraryPlan {
        path: join_path(folder, a.path.as_str()),
        url: a.url.clone(),
        sha1: a.sha1.clone(),
        size: a.size,
        process_native,
        is_native: is_native_library,
        extension: String::from_str(extension),
    }
}

/// What the native front end does for one library.
#[derive(Clone, Copy, Debug, PartialEq, Eq, Structural)]
pub enum NativeLibraryStep {
    /// Fetch the archive and unpack its native files; its size is not counted.
    Unpack,
    /// The artifact is in place.
    Keep,
    /// Fetch the artifact to its path, counting its size.
    Fetch,
}

/// Decides what to do for a planned library, given whether its artifact exists
/// and, when it exists and the library is not native at all, its contents.
pub fn native_library_step(plan: &NativeLibraryPlan, exists: bool, contents: Option<&[u8]>) -> (r: NativeLibraryStep)
    requires
        exists && !plan.process_native && !plan.is_native ==> contents is Some,
    ensures
        ({
            let again = if !exists {
                true
            } else if !plan.process_native && !plan.is_native {
                !hash_matches(contents->0@, plan.sha1@)
            } else {
                false
            };
            r == (if plan.process_native {
                NativeLibraryStep::Unpack
            } else if !again {
                NativeLibraryStep::Keep
            } else {
                NativeLibraryStep::Fetch
            })
        }),
{
    let again = if !exists {
        true
    } else if !plan.process_native && !plan.is_native {
        match contents {
            Some(c) => needs_fetch(Some(c), plan.sha1.as_str()),
            None => true,
        }
    } else {
        false
    };
    if plan.process_native {
        NativeLibraryStep::Unpack
    } else if !again {
        NativeLibraryStep::Keep
    } else {
        NativeLibraryStep::Fetch
    }
}

/// The native front end's name for the detected operating system; `None` for
/// one it does not support.
pub fn native_os_name_of(os: DetectedOs) -> (r: Option<OsName>)
    ensures
        r == match os {
            DetectedOs::Linux => Some(OsName::Linux),
            DetectedOs::Windows => Some(OsName::Windows),
            DetectedOs::MacOS => Some(OsName::Osx),
            DetectedOs::Other => None,
        },
{
    match os {
        DetectedOs::Linux => Some(OsName::Linux),
        DetectedOs::Windows => Some(OsName::Windows),
        DetectedOs::MacOS => Some(OsName::Osx),
        DetectedOs::Other => None,
    }
}

} // verus!
