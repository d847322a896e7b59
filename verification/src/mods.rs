//! Mods of a collection, as Modrinth and CurseForge describe their versions, and
//! the choice of the version that fits a collection's game version and loader.
use vstd::prelude::*;

use crate::bindings::{semver_minor, semver_minor_of};
use crate::collection::ModLoaderType;
use crate::text::str_eq;
use crate::version::{VersionMetadata, VersionType};

verus! {

/// Relaxations of the version choice that a user can ask for.
/// `IgnoreMinorGameVersion` behaves like `IgnoreAllGameVersion` on snapshots.
#[derive(Clone, Copy, Debug, PartialEq, Eq, Structural)]
pub enum ModOverride {
    /// Accept a mod made for the same minor game version, preferring an exact match.
    IgnoreMinorGameVersion,
    IgnoreAllGameVersion,
    QuiltFabricCompatibility,
    IgnoreModLoader,
}

/// Why a mod is in a collection.
#[derive(Clone, Debug)]
pub enum Tag {
    Dependencies,
    Explicit,
    Custom(String),
}

/// Where a mod comes from.
#[derive(Clone, Copy, Debug, PartialEq, Eq, Structural)]
pub enum Platform {
    Modrinth,
    Curseforge,
}

/// A file of a Modrinth version.
#[derive(Debug)]
pub struct ModrinthFile {
    pub sha1: String,
    pub url: String,
    pub filename: String,
    pub primary: bool,
    pub size: usize,
}

/// How a Modrinth version depends on another project.
#[derive(Clone, Copy, Debug, PartialEq, Eq, Structural)]
pub enum DependencyType {
    Required,
    Optional,
    Incompatible,
    Embedded,
}

/// A dependency of a Modrinth version.
#[derive(Debug)]
pub struct ModrinthDependency {
    pub version_id: Option<String>,
    pub project_id: Option<String>,
    pub dependency_type: DependencyType,
}

/// A Modrinth version of a mod. Times are nanoseconds since the Unix epoch.
#[derive(Debug)]
pub struct ModrinthVersion {
    pub project_id: String,
    pub version_number: String,
    pub loaders: Vec<String>,
    pub game_versions: Vec<String>,
    pub date_published: i128,
    pub downloads: usize,
    pub files: Vec<ModrinthFile>,
    pub dependencies: Vec<ModrinthDependency>,
}

/// A hash algorithm CurseForge reports.
#[derive(Clone, Copy, Debug, PartialEq, Eq, Structural)]
pub enum HashAlgo {
    Sha1,
    Md5,
}

/// A hash of a CurseForge file.
#[derive(Debug)]
pub struct FileHash {
    pub value: String,
    pub algo: HashAlgo,
}

/// How a CurseForge file relates to another mod.
#[derive(Clone, Copy, Debug, PartialEq, Eq, Structural)]
pub enum FileRelationType {
    EmbeddedLibrary,
    OptionalDependency,
    RequiredDependency,
    Tool,
    Incompatible,
    Include,
}

/// A dependency of a CurseForge file.
#[derive(Debug)]
pub struct FileDependency {
    pub mod_id: i32,
    pub relation_type: FileRelationType,
}

/// A CurseForge file of a mod. Times are nanoseconds since the Unix epoch.
#[derive(Debug)]
pub struct CurseforgeFile {
    pub mod_id: i32,
    pub file_name: String,
    pub download_url: Option<String>,
    pub hashes: Vec<FileHash>,
    pub file_length: usize,
    pub game_versions: Vec<String>,
    pub file_date: i128,
    pub download_count: usize,
    pub dependencies: Vec<FileDependency>,
}

/// The mod loaders CurseForge knows.
#[derive(Clone, Copy, Debug, PartialEq, Eq, Structural)]
pub enum CurseforgeModLoader {
    Any,
    Forge,
    Cauldron,
    LiteLoader,
    Fabric,
    Quilt,
    NeoForge,
}

/// The index entry of a CurseForge file.
#[derive(Debug)]
pub struct CurseforgeFileIndex {
    pub mod_loader: Option<CurseforgeModLoader>,
}

/// A version of a mod from either platform.
#[derive(Debug)]
pub enum RawModData {
    Modrinth(ModrinthVersion),
    Curseforge { data: CurseforgeFile, metadata: CurseforgeFileIndex },
}

/// The loader a Modrinth loader name stands for.
pub open spec fn loader_of_name(name: Seq<char>) -> Option<ModLoaderType> {
    if name == "forge"@ {
        Some(ModLoaderType::Forge)
    } else if name == "quilt"@ {
        Some(ModLoaderType::Quilt)
    } else if name == "fabric"@ {
        Some(ModLoaderType::Fabric)
    } else if name == "neoforge"@ {
        Some(ModLoaderType::NeoForge)
    } else {
        None
    }
}

/// The loader a CurseForge loader stands for (`Any`, `Cauldron` and `LiteLoader` stand for none).
pub open spec fn loader_of_curseforge(loader: CurseforgeModLoader) -> Option<ModLoaderType> {
    match loader {
        CurseforgeModLoader::Forge => Some(ModLoaderType::Forge),
        CurseforgeModLoader::Fabric => Some(ModLoaderType::Fabric),
        CurseforgeModLoader::Quilt => Some(ModLoaderType::Quilt),
        CurseforgeModLoader::NeoForge => Some(ModLoaderType::NeoForge),
        _ => None,
    }
}

/// A mod for `loader` runs on `target`: the same loader, a Fabric mod on Quilt
/// when Quilt-Fabric compatibility is asked for, or a Forge mod on NeoForge.
pub open spec fn loader_compatible(loader: Option<ModLoaderType>, target: ModLoaderType, overrides: Seq<ModOverride>) -> bool {
    ||| loader == Some(target)
    ||| (overrides.contains(ModOverride::QuiltFabricCompatibility) && target == ModLoaderType::Quilt
        && loader == Some(ModLoaderType::Fabric))
    ||| (target == ModLoaderType::NeoForge && loader == Some(ModLoaderType::Forge))
}

/// The version may be used with the collection's loader `target`.
pub open spec fn loader_accepts(v: RawModData, target: ModLoaderType, overrides: Seq<ModOverride>) -> bool {
    if overrides.contains(ModOverride::IgnoreModLoader) {
        true
    } else {
        match v {
            RawModData::Modrinth(x) => exists|i: int|
                0 <= i < x.loaders@.len() && loader_compatible(loader_of_name(#[trigger] x.loaders@[i]@), target, overrides),
            RawModData::Curseforge { metadata, .. } => match metadata.mod_loader {
                Some(l) => l == CurseforgeModLoader::Any || loader_compatible(loader_of_curseforge(l), target, overrides),
                None => false,
            },
        }
    }
}

/// The game versions a mod version declares.
pub open spec fn declared_game_versions(v: RawModData) -> Seq<String> {
    match v {
        RawModData::Modrinth(x) => x.game_versions@,
        RawModData::Curseforge { data, .. } => data.game_versions@,
    }
}

/// The publication time of a mod version.
pub open spec fn published(v: RawModData) -> int {
    match v {
        RawModData::Modrinth(x) => x.date_published as int,
        RawModData::Curseforge { data, .. } => data.file_date as int,
    }
}

/// `id` names one of the known game versions.
pub open spec fn is_known(all: Seq<VersionMetadata>, id: Seq<char>) -> bool {
    exists|k: int| 0 <= k < all.len() && (#[trigger] all[k]).id@ == id
}

/// Two game versions share their SemVer minor number; when either is not a
/// SemVer version they must be the same.
pub open spec fn minor_matches(version_id: Seq<char>, game_id: Seq<char>) -> bool {
    match (semver_minor_of(version_id), semver_minor_of(game_id)) {
        (Some(a), Some(b)) => a == b,
        _ => version_id == game_id,
    }
}

/// The version declares the known game version `game_id`.
pub open spec fn supports_exactly(v: RawModData, all: Seq<VersionMetadata>, game_id: Seq<char>) -> bool {
    exists|i: int|
        0 <= i < declared_game_versions(v).len() && is_known(all, #[trigger] declared_game_versions(v)[i]@)
            && declared_game_versions(v)[i]@ == game_id
}

/// The version declares a known game version of the same minor version as `game_id`.
pub open spec fn supports_minor(v: RawModData, all: Seq<VersionMetadata>, game_id: Seq<char>) -> bool {
    exists|i: int|
        0 <= i < declared_game_versions(v).len() && is_known(all, #[trigger] declared_game_versions(v)[i]@)
            && minor_matches(declared_game_versions(v)[i]@, game_id)
}

/// `IgnoreMinorGameVersion` is asked for a snapshot, where it behaves like
/// `IgnoreAllGameVersion`.
pub open spec fn minor_on_snapshot(game: VersionMetadata, overrides: Seq<ModOverride>) -> bool {
    overrides.contains(ModOverride::IgnoreMinorGameVersion) && game.version_type == VersionType::Snapshot
}

/// The version may be used with the collection's game version.
pub open spec fn game_accepts(v: RawModData, all: Seq<VersionMetadata>, game: VersionMetadata, overrides: Seq<ModOverride>) -> bool {
    if overrides.contains(ModOverride::IgnoreAllGameVersion) || minor_on_snapshot(game, overrides) {
        true
    } else if overrides.contains(ModOverride::IgnoreMinorGameVersion) && game.version_type == VersionType::Release {
        supports_minor(v, all, game.id@)
    } else {
        supports_exactly(v, all, game.id@)
    }
}

/// A version the choice may fall on; `strict` also asks for the exact game version.
pub open spec fn candidate(
    v: RawModData,
    all: Seq<VersionMetadata>,
    game: VersionMetadata,
    target: ModLoaderType,
    overrides: Seq<ModOverride>,
    strict: bool,
) -> bool {
    &&& loader_accepts(v, target, overrides)
    &&& game_accepts(v, all, game, overrides)
    &&& strict ==> supports_exactly(v, all, game.id@)
}

/// Index of the newest candidate of `s`, the earliest of equally new ones; `-1`
/// when there is none. This is the first candidate once `s` is sorted newest
/// first by a stable sort.
pub open spec fn newest_candidate(
    s: Seq<RawModData>,
    all: Seq<VersionMetadata>,
    game: VersionMetadata,
    target: ModLoaderType,
    overrides: Seq<ModOverride>,
    strict: bool,
) -> int
    decreases s.len(),
{
    if s.len() == 0 {
        -1
    } else {
        let b = newest_candidate(s.drop_last(), all, game, target, overrides, strict);
        if candidate(s.last(), all, game, target, overrides, strict) && (b < 0 || published(s.last()) > published(s[b])) {
            s.len() - 1
        } else {
            b
        }
    }
}

/// `IgnoreMinorGameVersion` is asked for a game version that is not a
/// snapshot: of the versions accepted, one made for exactly the game version is
/// preferred.
pub open spec fn prefers_exact(game: VersionMetadata, overrides: Seq<ModOverride>) -> bool {
    overrides.contains(ModOverride::IgnoreMinorGameVersion) && game.version_type != VersionType::Snapshot
}

/// Index of the version chosen among `s`: when `prefers_exact`, the newest one
/// made for exactly the game version if there is one; otherwise the newest
/// one accepted.
pub open spec fn chosen_index(
    s: Seq<RawModData>,
    all: Seq<VersionMetadata>,
    game: VersionMetadata,
    target: ModLoaderType,
    overrides: Seq<ModOverride>,
) -> int {
    if prefers_exact(game, overrides) && newest_candidate(s, all, game, target, overrides, true) >= 0 {
        newest_candidate(s, all, game, target, overrides, true)
    } else {
        newest_candidate(s, all, game, target, overrides, false)
    }
}

/// The primary files among `files`, in order.
pub open spec fn primary_files(files: Seq<ModrinthFile>) -> Seq<ModrinthFile>
    decreases files.len(),
{
    if files.len() == 0 {
        Seq::empty()
    } else if files.last().primary {
        primary_files(files.drop_last()).push(files.last())
    } else {
        primary_files(files.drop_last())
    }
}

/// `x` is `v` keeping only the primary files of a Modrinth version.
pub open spec fn primary_version_of(x: RawModData, v: RawModData) -> bool {
    match (x, v) {
        (RawModData::Modrinth(a), RawModData::Modrinth(b)) => {
            &&& a.project_id == b.project_id
            &&& a.version_number == b.version_number
            &&& a.loaders == b.loaders
            &&& a.game_versions == b.game_versions
            &&& a.date_published == b.date_published
            &&& a.downloads == b.downloads
            &&& a.dependencies == b.dependencies
            &&& a.files@ == primary_files(b.files@)
        },
        (RawModData::Curseforge { .. }, RawModData::Curseforge { .. }) => x == v,
        _ => false,
    }
}

/// Errors of the mod choice.
#[derive(Debug)]
pub enum ModError {
    /// Sharing is disabled for a CurseForge mod, so it has no download link.
    SharingDisabled { minecraft_mod: String },
    /// No version of `project` is made for `mod_loader`.
    ProjectModloaderLookup { mod_loader: ModLoaderType, project: String },
}

/// Whether `overrides` holds `x`.
pub fn has_override(overrides: &Vec<ModOverride>, x: ModOverride) -> (r: bool)
    ensures
        r == overrides@.contains(x),
{
    let mut i: usize = 0;
    while i < overrides.len()
        invariant
            i <= overrides.len(),
            forall|k: int| 0 <= k < i ==> overrides@[k] != x,
        decreases overrides.len() - i,
    {
        if overrides[i] == x {
            assert(overrides@[i as int] == x);
            return true;
        }
        i = i + 1;
    }
    false
}

/// The loader a Modrinth loader name stands for.
pub fn loader_from_name(name: &str) -> (r: Option<ModLoaderType>)
    ensures
        r == loader_of_name(name@),
{
    if str_eq(name, "forge") {
        Some(ModLoaderType::Forge)
    } else if str_eq(name, "quilt") {
        Some(ModLoaderType::Quilt)
    } else if str_eq(name, "fabric") {
        Some(ModLoaderType::Fabric)
    } else if str_eq(name, "neoforge") {
        Some(ModLoaderType::NeoForge)
    } else {
        None
    }
}

fn compatible(loader: Option<ModLoaderType>, target: ModLoaderType, quilt_fabric: bool) -> (r: bool)
    ensures
        r == (loader == Some(target) || (quilt_fabric && target == ModLoaderType::Quilt && loader == Some(ModLoaderType::Fabric))
            || (target == ModLoaderType::NeoForge && loader == Some(ModLoaderType::Forge))),
{
    let same = match loader {
        Some(l) => l == target,
        None => false,
    };
    let is_fabric = match loader {
        Some(l) => l == ModLoaderType::Fabric,
        None => false,
    };
    let is_forge = match loader {
        Some(l) => l == ModLoaderType::Forge,
        None => false,
    };
    same || (quilt_fabric && target == ModLoaderType::Quilt && is_fabric) || (target == ModLoaderType::NeoForge && is_forge)
}

/// The CurseForge version `data` with the loader `loader` in its file index.
pub open spec fn curseforge_with_loader(data: CurseforgeFile, loader: Option<CurseforgeModLoader>) -> RawModData {
    RawModData::Curseforge { data, metadata: CurseforgeFileIndex { mod_loader: loader } }
}

/// A version made for the collection's own loader is accepted, on either
/// platform: a CurseForge file whose index names Forge, Fabric, Quilt or
/// NeoForge, and a Modrinth version that lists `forge`, `fabric`, `quilt` or
/// `neoforge`, fits a collection of that loader, whatever the overrides. A
/// CurseForge file for any loader fits every collection, and a Forge mod fits
/// NeoForge. A Fabric mod fits Quilt only with Quilt-Fabric compatibility (or
/// with the loader ignored); a CurseForge file that names no loader, or a
/// loader of another kind, fits only when the loader is ignored, which
/// accepts every version.
pub proof fn law_own_loader_is_accepted(
    data: CurseforgeFile,
    x: ModrinthVersion,
    i: int,
    target: ModLoaderType,
    overrides: Seq<ModOverride>,
)
    ensures
        target == ModLoaderType::Forge ==> loader_accepts(curseforge_with_loader(data, Some(CurseforgeModLoader::Forge)), target, overrides),
        target == ModLoaderType::Fabric ==> loader_accepts(curseforge_with_loader(data, Some(CurseforgeModLoader::Fabric)), target, overrides),
        target == ModLoaderType::Quilt ==> loader_accepts(curseforge_with_loader(data, Some(CurseforgeModLoader::Quilt)), target, overrides),
        target == ModLoaderType::NeoForge ==> loader_accepts(curseforge_with_loader(data, Some(CurseforgeModLoader::NeoForge)), target, overrides),
        loader_accepts(curseforge_with_loader(data, Some(CurseforgeModLoader::Any)), target, overrides),
        target == ModLoaderType::NeoForge ==> loader_accepts(curseforge_with_loader(data, Some(CurseforgeModLoader::Forge)), target, overrides),
        target == ModLoaderType::Quilt ==> (loader_accepts(curseforge_with_loader(data, Some(CurseforgeModLoader::Fabric)), target, overrides)
            <==> (overrides.contains(ModOverride::QuiltFabricCompatibility) || overrides.contains(ModOverride::IgnoreModLoader))),
        loader_accepts(curseforge_with_loader(data, None), target, overrides) <==> overrides.contains(ModOverride::IgnoreModLoader),
        target != ModLoaderType::Forge && target != ModLoaderType::NeoForge ==> (loader_accepts(
            curseforge_with_loader(data, Some(CurseforgeModLoader::Forge)),
            target,
            overrides,
        ) <==> overrides.contains(ModOverride::IgnoreModLoader)),
        overrides.contains(ModOverride::IgnoreModLoader) ==> loader_accepts(RawModData::Modrinth(x), target, overrides),
        0 <= i < x.loaders@.len() && target == ModLoaderType::Forge && x.loaders@[i]@ == "forge"@ ==> loader_accepts(RawModData::Modrinth(x), target, overrides),
        0 <= i < x.loaders@.len() && target == ModLoaderType::Fabric && x.loaders@[i]@ == "fabric"@ ==> loader_accepts(RawModData::Modrinth(x), target, overrides),
        0 <= i < x.loaders@.len() && target == ModLoaderType::Quilt && x.loaders@[i]@ == "quilt"@ ==> loader_accepts(RawModData::Modrinth(x), target, overrides),
        0 <= i < x.loaders@.len() && target == ModLoaderType::NeoForge && x.loaders@[i]@ == "neoforge"@ ==> loader_accepts(RawModData::Modrinth(x), target, overrides),
        x.loaders@.len() == 0 ==> (loader_accepts(RawModData::Modrinth(x), target, overrides) <==> overrides.contains(ModOverride::IgnoreModLoader)),
{
    lemma_loader_names();
    if 0 <= i < x.loaders@.len() {
        let n = x.loaders@[i]@;
        if (target == ModLoaderType::Forge && n == "forge"@) || (target == ModLoaderType::Fabric && n == "fabric"@)
            || (target == ModLoaderType::Quilt && n == "quilt"@) || (target == ModLoaderType::NeoForge && n == "neoforge"@) {
            assert(loader_compatible(loader_of_name(x.loaders@[i]@), target, overrides));
        }
    }
}

/// The loader each Modrinth loader name stands for.
proof fn lemma_loader_names()
    ensures
        loader_of_name("forge"@) == Some(ModLoaderType::Forge),
        loader_of_name("fabric"@) == Some(ModLoaderType::Fabric),
        loader_of_name("quilt"@) == Some(ModLoaderType::Quilt),
        loader_of_name("neoforge"@) == Some(ModLoaderType::NeoForge),
{
    reveal_strlit("forge");
    reveal_strlit("fabric");
    reveal_strlit("quilt");
    reveal_strlit("neoforge");
    assert("fabric"@ != "forge"@) by { assert("fabric"@.len() != "forge"@.len()); }
    assert("fabric"@ != "quilt"@) by { assert("fabric"@.len() != "quilt"@.len()); }
    assert("quilt"@ != "forge"@) by { assert("quilt"@[0] != "forge"@[0]); }
    assert("neoforge"@ != "forge"@) by { assert("neoforge"@.len() != "forge"@.len()); }
    assert("neoforge"@ != "quilt"@) by { assert("neoforge"@.len() != "quilt"@.len()); }
    assert("neoforge"@ != "fabric"@) by { assert("neoforge"@[0] != "fabric"@[0]); }
}

/// Whether the version may be used with the loader `target`.
pub fn loader_filter(v: &RawModData, target: ModLoaderType, overrides: &Vec<ModOverride>) -> (r: bool)
    ensures
        r == loader_accepts(*v, target, overrides@),
{
    if has_override(overrides, ModOverride::IgnoreModLoader) {
        return true;
    }
    let quilt_fabric = has_override(overrides, ModOverride::QuiltFabricCompatibility);
    match v {
        RawModData::Modrinth(x) => {
            let mut i: usize = 0;
            while i < x.loaders.len()
                invariant
                    i <= x.loaders.len(),
                    *v == RawModData::Modrinth(*x),
                    !overrides@.contains(ModOverride::IgnoreModLoader),
                    quilt_fabric == overrides@.contains(ModOverride::QuiltFabricCompatibility),
                    forall|k: int| 0 <= k < i ==> !loader_compatible(loader_of_name(#[trigger] x.loaders@[k]@), target, overrides@),
                decreases x.loaders.len() - i,
            {
                let l = loader_from_name(x.loaders[i].as_str());
                if compatible(l, target, quilt_fabric) {
                    assert(loader_compatible(loader_of_name(x.loaders@[i as int]@), target, overrides@));
                    assert(!overrides@.contains(ModOverride::IgnoreModLoader));
                    assert(*v == RawModData::Modrinth(*x));
                    assert(loader_accepts(*v, target, overrides@));
                    return true;
                }
                i = i + 1;
            }
            false
        },
        RawModData::Curseforge { metadata, .. } => {
            match metadata.mod_loader {
                Some(l) => {
                    let any = l == CurseforgeModLoader::Any;
                    let mapped = match l {
                        CurseforgeModLoader::Forge => Some(ModLoaderType::Forge),
                        CurseforgeModLoader::Fabric => Some(ModLoaderType::Fabric),
                        CurseforgeModLoader::Quilt => Some(ModLoaderType::Quilt),
                        CurseforgeModLoader::NeoForge => Some(ModLoaderType::NeoForge),
                        _ => None,
                    };
                    compatible(mapped, target, quilt_fabric) || any
                },
                None => false,
            }
        },
    }
}

/// Whether `version` and `game_id` share their SemVer minor number, or, when
/// either is not a SemVer version, whether they are the same version.
pub fn minor_game_check(version: &VersionMetadata, game_id: &str) -> (r: bool)
    ensures
        r == minor_matches(version.id@, game_id@),
{
    let target = semver_minor(game_id);
    let supported = semver_minor(version.id.as_str());
    match (supported, target) {
        (Some(a), Some(b)) => a == b,
        _ => str_eq(version.id.as_str(), game_id),
    }
}

fn game_versions_of(v: &RawModData) -> (r: &Vec<String>)
    ensures
        r@ == declared_game_versions(*v),
{
    match v {
        RawModData::Modrinth(x) => &x.game_versions,
        RawModData::Curseforge { data, .. } => &data.game_versions,
    }
}

/// The first known game version with id `id`.
fn find_known<'a>(all: &'a [VersionMetadata], id: &str) -> (r: Option<&'a VersionMetadata>)
    ensures
        r matches Some(y) ==> y.id@ == id@,
        r is None <==> !is_known(all@, id@),
{
    let mut k: usize = 0;
    while k < all.len()
        invariant
            k <= all.len(),
            forall|j: int| 0 <= j < k ==> (#[trigger] all@[j]).id@ != id@,
        decreases all.len() - k,
    {
        if str_eq(all[k].id.as_str(), id) {
            return Some(&all[k]);
        }
        k = k + 1;
    }
    None
}

/// Whether the version declares a known game version equal to `game_id`
/// (`minor` false) or of the same minor version (`minor` true).
fn declares_game_version(v: &RawModData, all: &[VersionMetadata], game_id: &str, minor: bool) -> (r: bool)
    ensures
        !minor ==> r == supports_exactly(*v, all@, game_id@),
        minor ==> r == supports_minor(*v, all@, game_id@),
{
    let gvs = game_versions_of(v);
    let mut i: usize = 0;
    while i < gvs.len()
        invariant
            gvs@ == declared_game_versions(*v),
            i <= gvs.len(),
            !minor ==> forall|k: int| 0 <= k < i ==> !(is_known(all@, #[trigger] gvs@[k]@) && gvs@[k]@ == game_id@),
            minor ==> forall|k: int| 0 <= k < i ==> !(is_known(all@, #[trigger] gvs@[k]@) && minor_matches(gvs@[k]@, game_id@)),
        decreases gvs.len() - i,
    {
        match find_known(all, gvs[i].as_str()) {
            Some(y) => {
                let hit = if minor {
                    minor_game_check(y, game_id)
                } else {
                    str_eq(y.id.as_str(), game_id)
                };
                if hit {
                    return true;
                }
            },
            None => {},
        }
        i = i + 1;
    }
    false
}

/// Whether the version may be used with the collection's game version.
pub fn game_filter(v: &RawModData, all: &[VersionMetadata], game: &VersionMetadata, overrides: &Vec<ModOverride>) -> (r: bool)
    ensures
        r == game_accepts(*v, all@, *game, overrides@),
{
    if has_override(overrides, ModOverride::IgnoreAllGameVersion) || (has_override(overrides, ModOverride::IgnoreMinorGameVersion)
        && game.version_type == VersionType::Snapshot) {
        true
    } else if has_override(overrides, ModOverride::IgnoreMinorGameVersion) && game.version_type == VersionType::Release {
        declares_game_version(v, all, game.id.as_str(), true)
    } else {
        declares_game_version(v, all, game.id.as_str(), false)
    }
}

fn published_of(v: &RawModData) -> (r: i128)
    ensures
        r == published(*v),
{
    match v {
        RawModData::Modrinth(x) => x.date_published,
        RawModData::Curseforge { data, .. } => data.file_date,
    }
}

/// Keeps the primary files of a Modrinth version.
fn keep_primary_files(v: RawModData) -> (r: RawModData)
    ensures
        primary_version_of(r, v),
{
    match v {
        RawModData::Modrinth(x) => {
            let ModrinthVersion {
                project_id,
                version_number,
                loaders,
                game_versions,
                date_published,
                downloads,
                files,
                dependencies,
            } = x;
            let ghost original = files@;
            let n = files.len();
            let mut rest = files;
            let mut kept: Vec<ModrinthFile> = Vec::new();
            let mut k: usize = 0;
            assert(original.skip(0) =~= original);
            while rest.len() > 0
                invariant
                    k <= original.len(),
                    original.len() == n,
                    k + rest@.len() == original.len(),
                    rest@ == original.skip(k as int),
                    kept@ == primary_files(original.take(k as int)),
                decreases rest.len(),
            {
                let f = rest.remove(0);
                assert(original.take(k + 1).drop_last() =~= original.take(k as int));
                assert(original.take(k + 1).last() == f);
                assert(rest@ =~= original.skip(k + 1));
                if f.primary {
                    kept.push(f);
                }
                k = k + 1;
            }
            assert(original.take(k as int) =~= original);
            let r = RawModData::Modrinth(ModrinthVersion {
                project_id,
                version_number,
                loaders,
                game_versions,
                date_published,
                downloads,
                files: kept,
                dependencies,
            });
            r
        },
        RawModData::Curseforge { data, metadata } => RawModData::Curseforge { data, metadata },
    }
}

/// Chooses the version of the project `name` to install for the collection's
/// game version and mod loader. Fails when no version is made for the loader;
/// gives `None` when versions for the loader exist but none fits the game
/// version. Of the fitting versions it gives the newest (the first listed of
/// equally new ones); with `IgnoreMinorGameVersion` it prefers the newest made
/// for exactly the game version. Of a Modrinth version only the primary files are kept.
pub fn fetch_version_modloader_constraints(
    name: &str,
    all_game_versions: &[VersionMetadata],
    collection_game_version: &VersionMetadata,
    collection_mod_loader: ModLoaderType,
    versions: Vec<RawModData>,
    mod_override: &Vec<ModOverride>,
) -> (r: Result<Option<RawModData>, ModError>)
    ensures
        r is Err <==> !exists|i: int|
            0 <= i < versions@.len() && loader_accepts(#[trigger] versions@[i], collection_mod_loader, mod_override@),
        r matches Err(e) ==> e matches ModError::ProjectModloaderLookup { mod_loader, project }
            && mod_loader == collection_mod_loader && project@ == name@,
        r matches Ok(None) ==> chosen_index(versions@, all_game_versions@, *collection_game_version, collection_mod_loader, mod_override@) < 0,
        r matches Ok(Some(x)) ==> {
            let c = chosen_index(versions@, all_game_versions@, *collection_game_version, collection_mod_loader, mod_override@);
            0 <= c < versions@.len() && primary_version_of(x, versions@[c])
        },
{
    let ghost all = all_game_versions@;
    let ghost game = *collection_game_version;
    let ghost ov = mod_override@;
    let ghost target = collection_mod_loader;
    let mut any_loader = false;
    let mut best_any: Option<usize> = None;
    let mut best_strict: Option<usize> = None;
    let mut i: usize = 0;
    while i < versions.len()
        invariant
            i <= versions.len(),
            all == all_game_versions@,
            game == *collection_game_version,
            ov == mod_override@,
            target == collection_mod_loader,
            any_loader == exists|k: int| 0 <= k < i && loader_accepts(#[trigger] versions@[k], target, ov),
            match best_any {
                Some(b) => b as int == newest_candidate(versions@.take(i as int), all, game, target, ov, false) && b < i,
                None => newest_candidate(versions@.take(i as int), all, game, target, ov, false) == -1,
            },
            match best_strict {
                Some(b) => b as int == newest_candidate(versions@.take(i as int), all, game, target, ov, true) && b < i,
                None => newest_candidate(versions@.take(i as int), all, game, target, ov, true) == -1,
            },
        decreases versions.len() - i,
    {
        let v = &versions[i];
        let ghost s1 = versions@.take(i + 1);
        let ghost s0 = versions@.take(i as int);
        assert(s1.drop_last() =~= s0);
        assert(s1.last() == versions@[i as int]);
        assert(forall|k: int| 0 <= k < i ==> s0[k] == versions@[k]);
        let loader_ok = loader_filter(v, collection_mod_loader, mod_override);
        if loader_ok {
            any_loader = true;
        }
        let game_ok = game_filter(v, all_game_versions, collection_game_version, mod_override);
        let exact = declares_game_version(v, all_game_versions, collection_game_version.id.as_str(), false);
        let date = published_of(v);
        assert(*v == versions@[i as int]);
        assert(loader_ok == loader_accepts(versions@[i as int], target, ov));
        assert(game_ok == game_accepts(versions@[i as int], all, game, ov));
        assert(candidate(versions@[i as int], all, game, target, ov, false) == (loader_ok && game_ok));
        assert(candidate(versions@[i as int], all, game, target, ov, true) == (loader_ok && game_ok && exact));
        if loader_ok && game_ok {
            let newer = match best_any {
                Some(b) => date > published_of(&versions[b]),
                None => true,
            };
            if newer {
                best_any = Some(i);
            }
            if exact {
                let newer_strict = match best_strict {
                    Some(b) => date > published_of(&versions[b]),
                    None => true,
                };
                if newer_strict {
                    best_strict = Some(i);
                }
            }
        }
        assert(any_loader == exists|k: int| 0 <= k < i + 1 && loader_accepts(#[trigger] versions@[k], target, ov)) by {
            if loader_accepts(versions@[i as int], target, ov) {
                assert(loader_ok);
            }
        }
        i = i + 1;
    }
    assert(versions@.take(versions.len() as int) =~= versions@);
    if !any_loader {
        return Err(ModError::ProjectModloaderLookup {
            mod_loader: collection_mod_loader,
            project: name.to_owned(),
        });
    }
    let chosen = if has_override(mod_override, ModOverride::IgnoreMinorGameVersion) && collection_game_version.version_type != VersionType::Snapshot {
        match best_strict {
            Some(b) => Some(b),
            None => best_any,
        }
    } else {
        best_any
    };
    match chosen {
        None => Ok(None),
        Some(c) => {
            let mut versions = versions;
            let v = versions.remove(c);
            Ok(Some(keep_primary_files(v)))
        },
    }
}

/// When two ways of judging candidates agree on every version, they pick the
/// same newest candidate.
proof fn lemma_newest_candidate_agree(
    s: Seq<RawModData>,
    all: Seq<VersionMetadata>,
    game: VersionMetadata,
    target: ModLoaderType,
    a: Seq<ModOverride>,
    b: Seq<ModOverride>,
    strict: bool,
)
    requires
        forall|v: RawModData| candidate(v, all, game, target, a, strict) == candidate(v, all, game, target, b, strict),
    ensures
        newest_candidate(s, all, game, target, a, strict) == newest_candidate(s, all, game, target, b, strict),
    decreases s.len(),
{
    if s.len() > 0 {
        lemma_newest_candidate_agree(s.drop_last(), all, game, target, a, b, strict);
        assert(candidate(s.last(), all, game, target, a, strict) == candidate(s.last(), all, game, target, b, strict));
    }
}

/// On a snapshot, `IgnoreMinorGameVersion` behaves like `IgnoreAllGameVersion`:
/// with overrides that agree on the loader overrides, asking for the one
/// (without the other) or for the other (without the one) accepts the same
/// versions and chooses the same version.
pub proof fn law_minor_on_snapshot_is_all(
    s: Seq<RawModData>,
    all: Seq<VersionMetadata>,
    game: VersionMetadata,
    target: ModLoaderType,
    a: Seq<ModOverride>,
    b: Seq<ModOverride>,
)
    requires
        game.version_type == VersionType::Snapshot,
        a.contains(ModOverride::IgnoreMinorGameVersion),
        b.contains(ModOverride::IgnoreAllGameVersion),
        !b.contains(ModOverride::IgnoreMinorGameVersion),
        a.contains(ModOverride::IgnoreModLoader) == b.contains(ModOverride::IgnoreModLoader),
        a.contains(ModOverride::QuiltFabricCompatibility) == b.contains(ModOverride::QuiltFabricCompatibility),
    ensures
        forall|v: RawModData| #[trigger] loader_accepts(v, target, a) == loader_accepts(v, target, b),
        forall|v: RawModData| #[trigger] game_accepts(v, all, game, a) == game_accepts(v, all, game, b),
        chosen_index(s, all, game, target, a) == chosen_index(s, all, game, target, b),
{
    assert forall|v: RawModData| #[trigger] loader_accepts(v, target, a) == loader_accepts(v, target, b) by {
        assert forall|l: Option<ModLoaderType>| #[trigger] loader_compatible(l, target, a) == loader_compatible(l, target, b) by {}
    }
    assert forall|v: RawModData| candidate(v, all, game, target, a, false) == candidate(v, all, game, target, b, false) by {
        assert(loader_accepts(v, target, a) == loader_accepts(v, target, b));
    }
    lemma_newest_candidate_agree(s, all, game, target, a, b, false);
}

/// The version chosen among the candidates is the latest one: it is a
/// candidate, no candidate was published after it, and every candidate listed
/// before it was published strictly earlier. When there is no candidate, none
/// is chosen.
pub proof fn law_newest_candidate_is_latest(
    s: Seq<RawModData>,
    all: Seq<VersionMetadata>,
    game: VersionMetadata,
    target: ModLoaderType,
    overrides: Seq<ModOverride>,
    strict: bool,
)
    ensures
        ({
            let c = newest_candidate(s, all, game, target, overrides, strict);
            &&& -1 <= c < s.len()
            &&& c == -1 <==> forall|i: int| 0 <= i < s.len() ==> !candidate(#[trigger] s[i], all, game, target, overrides, strict)
            &&& c >= 0 ==> {
                &&& candidate(s[c], all, game, target, overrides, strict)
                &&& forall|i: int| 0 <= i < s.len() && candidate(#[trigger] s[i], all, game, target, overrides, strict) ==> published(s[i]) <= published(s[c])
                &&& forall|i: int| 0 <= i < c && candidate(#[trigger] s[i], all, game, target, overrides, strict) ==> published(s[i]) < published(s[c])
            }
        }),
    decreases s.len(),
{
    if s.len() > 0 {
        let p = s.drop_last();
        let last = s.len() - 1;
        law_newest_candidate_is_latest(p, all, game, target, overrides, strict);
        assert forall|i: int| 0 <= i < p.len() implies #[trigger] p[i] == s[i] by {}
        let b = newest_candidate(p, all, game, target, overrides, strict);
        let c = newest_candidate(s, all, game, target, overrides, strict);
        assert(s.last() == s[last]);
        if candidate(s[last], all, game, target, overrides, strict) && (b < 0 || published(s[last]) > published(s[b])) {
            assert(c == last);
            assert forall|i: int| 0 <= i < s.len() && candidate(#[trigger] s[i], all, game, target, overrides, strict) implies published(s[i]) <= published(s[c]) by {
                if i < last {
                    assert(candidate(p[i], all, game, target, overrides, strict));
                }
            }
            assert forall|i: int| 0 <= i < c && candidate(#[trigger] s[i], all, game, target, overrides, strict) implies published(s[i]) < published(s[c]) by {
                assert(candidate(p[i], all, game, target, overrides, strict));
            }
        } else {
            assert(c == b);
            if b < 0 {
                assert forall|i: int| 0 <= i < s.len() implies !candidate(#[trigger] s[i], all, game, target, overrides, strict) by {
                    if i < last {
                        assert(!candidate(p[i], all, game, target, overrides, strict));
                    }
                }
            } else {
                assert(candidate(s[c], all, game, target, overrides, strict));
                assert forall|i: int| 0 <= i < s.len() && candidate(#[trigger] s[i], all, game, target, overrides, strict) implies published(s[i]) <= published(s[c]) by {
                    if i < last {
                        assert(candidate(p[i], all, game, target, overrides, strict));
                    }
                }
                assert forall|i: int| 0 <= i < c && candidate(#[trigger] s[i], all, game, target, overrides, strict) implies published(s[i]) < published(s[c]) by {
                    assert(candidate(p[i], all, game, target, overrides, strict));
                }
                assert(candidate(s[c], all, game, target, overrides, strict));
            }
        }
    }
}

} // verus!
