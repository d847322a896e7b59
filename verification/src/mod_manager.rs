//! The mods of a collection: what is known of each, which files it needs on
//! disk, how a newer version of a mod takes the place of an older one, and what
//! a mod asks to have installed beside it.
use vstd::prelude::*;

use crate::bindings::{hex_encode, hex_lower, semver_order, semver_order_of, sha1_digest, sha1_of};
use crate::collection::{loader_type_name, ModLoader, ModLoaderType};
use crate::download::{extract_filename, hash_matches, has_segments, last_segment, validate_sha1};
use crate::bindings::url_path_of;
use crate::mods::{
    chosen_index, fetch_version_modloader_constraints, loader_accepts, primary_version_of, FileHash,
    ModError, ModrinthFile, CurseforgeFile, CurseforgeFileIndex, DependencyType, FileRelationType, HashAlgo, ModOverride,
    ModrinthDependency, Platform, RawModData, Tag,
};
use crate::paths::{join_path, path_join};
use crate::text::{signed_decimal, signed_decimal_text, str_eq, views};
use crate::version::VersionMetadata;

verus! {

/// How two versions compare.
#[derive(Clone, Copy, Debug, PartialEq, Eq, Structural)]
pub enum VersionOrder {
    Less,
    Equal,
    Greater,
}

/// The project a mod belongs to, on its platform.
#[derive(Clone, Debug)]
pub enum ProjectId {
    Modrinth(String),
    Curseforge(i32),
}

/// The text of a project id: the Modrinth id, or the CurseForge number in decimal.
pub open spec fn project_id_text(id: ProjectId) -> Seq<char> {
    match id {
        ProjectId::Modrinth(x) => x@,
        ProjectId::Curseforge(n) => signed_decimal(n as int),
    }
}

/// Two project ids name the same project.
pub open spec fn same_project(a: ProjectId, b: ProjectId) -> bool {
    match (a, b) {
        (ProjectId::Modrinth(x), ProjectId::Modrinth(y)) => x@ == y@,
        (ProjectId::Curseforge(x), ProjectId::Curseforge(y)) => x == y,
        _ => false,
    }
}

impl ProjectId {
    /// The text of the id; see `project_id_text`.
    pub fn to_string(&self) -> (r: String)
        ensures
            r@ == project_id_text(*self),
    {
        match self {
            ProjectId::Modrinth(x) => x.clone(),
            ProjectId::Curseforge(n) => signed_decimal_text(*n),
        }
    }

    /// Whether `self` and `other` name the same project.
    pub fn same_as(&self, other: &ProjectId) -> (r: bool)
        ensures
            r == same_project(*self, *other),
    {
        match (self, other) {
            (ProjectId::Modrinth(x), ProjectId::Modrinth(y)) => str_eq(x.as_str(), y.as_str()),
            (ProjectId::Curseforge(x), ProjectId::Curseforge(y)) => *x == *y,
            _ => false,
        }
    }
}

/// A mod of a collection. Times are nanoseconds since the Unix epoch; the icon
/// URL is held as text; directories are paths held as text.
#[derive(Debug)]
pub struct ModMetadata {
    pub name: String,
    pub project_id: ProjectId,
    pub enabled: bool,
    pub authors: Vec<String>,
    pub long_description: String,
    pub short_description: String,
    pub mod_version: Option<String>,
    pub tag: Vec<Tag>,
    pub overrides: Vec<ModOverride>,
    pub incompatiable_mods: Option<Vec<ModMetadata>>,
    pub icon_url: Option<String>,
    pub last_updated: i128,
    pub icon_directory: String,
    pub game_directory: String,
    pub mod_data: RawModData,
}

/// The order of two instants.
pub open spec fn time_order(a: i128, b: i128) -> VersionOrder {
    if a < b {
        VersionOrder::Less
    } else if a == b {
        VersionOrder::Equal
    } else {
        VersionOrder::Greater
    }
}

/// How two mods compare: by their SemVer versions when both have one that
/// parses, otherwise by when they were last updated.
pub open spec fn mod_order(a: ModMetadata, b: ModMetadata) -> VersionOrder {
    match (a.mod_version, b.mod_version) {
        (Some(x), Some(y)) => match semver_order_of(x@, y@) {
            Some(o) => o,
            None => time_order(a.last_updated, b.last_updated),
        },
        _ => time_order(a.last_updated, b.last_updated),
    }
}

/// The order of two instants.
fn order_of_times(a: i128, b: i128) -> (r: VersionOrder)
    ensures
        r == time_order(a, b),
{
    if a < b {
        VersionOrder::Less
    } else if a == b {
        VersionOrder::Equal
    } else {
        VersionOrder::Greater
    }
}

impl ModMetadata {
    /// The platform the mod comes from.
    pub fn platform(&self) -> (r: Platform)
        ensures
            r == (if self.mod_data is Modrinth { Platform::Modrinth } else { Platform::Curseforge }),
    {
        match self.mod_data {
            RawModData::Modrinth(_) => Platform::Modrinth,
            RawModData::Curseforge { .. } => Platform::Curseforge,
        }
    }

    /// The directory the mod's files go to: `mods` in the game directory.
    pub fn base_path(&self) -> (r: String)
        ensures
            r@ == path_join(self.game_directory@, "mods"@),
    {
        join_path(self.game_directory.as_str(), "mods")
    }

    /// How often the mod's version was downloaded, as its platform counts.
    pub fn get_download_count(&self) -> (r: usize)
        ensures
            r == match self.mod_data {
                RawModData::Modrinth(x) => x.downloads,
                RawModData::Curseforge { data, .. } => data.download_count,
            },
    {
        match &self.mod_data {
            RawModData::Modrinth(x) => x.downloads,
            RawModData::Curseforge { data, .. } => data.download_count,
        }
    }

    /// How `self` compares with `other`; see `mod_order`.
    pub fn compare(&self, other: &ModMetadata) -> (r: VersionOrder)
        ensures
            r == mod_order(*self, *other),
    {
        match (&self.mod_version, &other.mod_version) {
            (Some(x), Some(y)) => match semver_order(x.as_str(), y.as_str()) {
                Some(o) => o,
                None => order_of_times(self.last_updated, other.last_updated),
            },
            _ => order_of_times(self.last_updated, other.last_updated),
        }
    }
}

impl PartialEq for ModMetadata {
    /// Mods are equal when they belong to the same project.
    fn eq(&self, other: &Self) -> (r: bool) {
        self.project_id.same_as(&other.project_id)
    }
}

impl vstd::std_specs::cmp::PartialEqSpecImpl for ModMetadata {
    open spec fn obeys_eq_spec() -> bool {
        true
    }

    open spec fn eq_spec(&self, other: &Self) -> bool {
        same_project(self.project_id, other.project_id)
    }
}

impl Eq for ModMetadata {}

/// A collection's mods, with what is needed to choose and place new ones.
/// Directories are paths held as text.
#[derive(Debug)]
pub struct ModManager {
    pub mods: Vec<ModMetadata>,
    pub cache: Option<Vec<VersionMetadata>>,
    pub game_directory: String,
    pub icon_directory: String,
    pub mod_loader: ModLoader,
    pub target_game_version: VersionMetadata,
}

/// `k` is the position of the first mod of `mods` that belongs to `id`.
pub open spec fn is_first_of_project(mods: Seq<ModMetadata>, id: ProjectId, k: int) -> bool {
    &&& 0 <= k < mods.len()
    &&& same_project(mods[k].project_id, id)
    &&& forall|j: int| 0 <= j < k ==> !same_project(#[trigger] mods[j].project_id, id)
}

/// Some mod of `mods` belongs to `id`.
pub open spec fn has_project(mods: Seq<ModMetadata>, id: ProjectId) -> bool {
    exists|k: int| 0 <= k < mods.len() && same_project(#[trigger] mods[k].project_id, id)
}

/// What adding a version of a mod asks for next.
#[derive(Debug)]
pub enum AddModStep {
    /// The collection had a mod of the same project: the new version took its
    /// place when it is newer (`replaced`), else it was dropped.
    Settled { replaced: bool },
    /// The project is new to the collection: its required dependencies are to
    /// be added, then `finish_new_mod` is to be called with it.
    ResolveDependencies(ModMetadata),
}

/// The Modrinth project id of Fabric API.
pub open spec fn fabric_api_id() -> Seq<char> {
    "P7dR8mSH"@
}

impl ModManager {
    /// A manager with no mods and no cached game versions.
    pub fn new(
        game_directory: String,
        icon_directory: String,
        mod_loader: ModLoader,
        target_game_version: VersionMetadata,
    ) -> (r: Self)
        ensures
            r.mods@.len() == 0,
            r.cache is None,
            r.game_directory == game_directory,
            r.icon_directory == icon_directory,
            r.mod_loader == mod_loader,
            r.target_game_version == target_game_version,
    {
        ModManager {
            mods: Vec::new(),
            cache: None,
            game_directory,
            mod_loader,
            target_game_version,
            icon_directory,
        }
    }

    /// Position of the first mod that belongs to `id`.
    pub fn find_project(&self, id: &ProjectId) -> (r: Option<usize>)
        ensures
            match r {
                Some(k) => is_first_of_project(self.mods@, *id, k as int),
                None => !has_project(self.mods@, *id),
            },
    {
        let mut i: usize = 0;
        while i < self.mods.len()
            invariant
                i <= self.mods.len(),
                forall|j: int| 0 <= j < i ==> !same_project(#[trigger] self.mods@[j].project_id, *id),
            decreases self.mods.len() - i,
        {
            if self.mods[i].project_id.same_as(id) {
                return Some(i);
            }
            i = i + 1;
        }
        None
    }

    /// Whether the collection has a mod of the project `minecraft_mod` belongs to.
    pub fn contains_mod(&self, minecraft_mod: &ModMetadata) -> (r: bool)
        ensures
            r == has_project(self.mods@, minecraft_mod.project_id),
    {
        self.find_project(&minecraft_mod.project_id).is_some()
    }

    /// Offers a version of a mod to the collection. A mod of the same project
    /// already there is replaced when the new version is newer (`mod_order`),
    /// and kept otherwise. A mod of a new project is handed back, to be added
    /// once its dependencies are.
    pub fn offer_mod(&mut self, new: ModMetadata) -> (r: AddModStep)
        ensures
            final(self).cache == old(self).cache,
            final(self).game_directory == old(self).game_directory,
            final(self).icon_directory == old(self).icon_directory,
            final(self).mod_loader == old(self).mod_loader,
            final(self).target_game_version == old(self).target_game_version,
            !has_project(old(self).mods@, new.project_id) ==> {
                &&& r == AddModStep::ResolveDependencies(new)
                &&& final(self).mods@ == old(self).mods@
            },
            forall|k: int| #[trigger] is_first_of_project(old(self).mods@, new.project_id, k) ==> {
                let replaced = mod_order(new, old(self).mods@[k]) == VersionOrder::Greater;
                &&& r == AddModStep::Settled { replaced }
                &&& final(self).mods@ == (if replaced { old(self).mods@.update(k, new) } else { old(self).mods@ })
            },
    {
        match self.find_project(&new.project_id) {
            None => AddModStep::ResolveDependencies(new),
            Some(k) => {
                proof {
                    assert forall|q: int| #[trigger] is_first_of_project(old(self).mods@, new.project_id, q) implies q == k by {
                        if q < k {
                            assert(!same_project(self.mods@[q].project_id, new.project_id));
                        }
                        if q > k {
                            assert(!same_project(self.mods@[k as int].project_id, new.project_id));
                        }
                    }
                }
                let newer = new.compare(&self.mods[k]) == VersionOrder::Greater;
                if newer {
                    self.mods.set(k, new);
                }
                AddModStep::Settled { replaced: newer }
            },
        }
    }

    /// Adds a mod of a new project once its dependencies are in. With Quilt,
    /// Fabric API is not added: the result is `true`, and the QSL project is to
    /// be added in its place. Otherwise the mod is appended.
    pub fn finish_new_mod(&mut self, new: ModMetadata, is_fabric_api: bool) -> (add_qsl: bool)
        ensures
            add_qsl == (old(self).mod_loader.mod_loader_type == ModLoaderType::Quilt && is_fabric_api),
            final(self).mods@ == (if add_qsl { old(self).mods@ } else { old(self).mods@.push(new) }),
            final(self).cache == old(self).cache,
            final(self).game_directory == old(self).game_directory,
            final(self).icon_directory == old(self).icon_directory,
            final(self).mod_loader == old(self).mod_loader,
            final(self).target_game_version == old(self).target_game_version,
    {
        if self.mod_loader.mod_loader_type == ModLoaderType::Quilt && is_fabric_api {
            true
        } else {
            self.mods.push(new);
            false
        }
    }
}

/// Whether `project_id` is the Modrinth project of Fabric API.
pub fn is_fabric_api(project_id: &str) -> (r: bool)
    ensures
        r == (project_id@ == fabric_api_id()),
{
    str_eq(project_id, "P7dR8mSH")
}

/// A dependency to be added beside a mod.
#[derive(Debug)]
pub enum DependencyRequest {
    /// A Modrinth version, by its id.
    ModrinthVersion(String),
    /// The fitting version of a Modrinth project, by the project's id.
    ModrinthProject(String),
    /// The fitting version of a CurseForge mod, by the mod's id.
    CurseforgeMod(i32),
}

/// What one Modrinth dependency asks for: a required one names a version when
/// it has one, else a project; other dependencies ask for nothing.
pub open spec fn modrinth_request(d: ModrinthDependency) -> Seq<DependencyRequest> {
    if d.dependency_type == DependencyType::Required {
        match d.version_id {
            Some(v) => seq![DependencyRequest::ModrinthVersion(v)],
            None => match d.project_id {
                Some(p) => seq![DependencyRequest::ModrinthProject(p)],
                None => Seq::empty(),
            },
        }
    } else {
        Seq::empty()
    }
}

/// What the dependencies of a Modrinth version ask for, in order.
pub open spec fn modrinth_requests(deps: Seq<ModrinthDependency>) -> Seq<DependencyRequest>
    decreases deps.len(),
{
    if deps.len() == 0 {
        Seq::empty()
    } else {
        modrinth_requests(deps.drop_last()) + modrinth_request(deps.last())
    }
}

/// What the dependencies of a CurseForge file ask for, in order: the mods it
/// requires.
pub open spec fn curseforge_requests(deps: Seq<crate::mods::FileDependency>) -> Seq<DependencyRequest>
    decreases deps.len(),
{
    if deps.len() == 0 {
        Seq::empty()
    } else {
        curseforge_requests(deps.drop_last()) + (if deps.last().relation_type == FileRelationType::RequiredDependency {
            seq![DependencyRequest::CurseforgeMod(deps.last().mod_id)]
        } else {
            Seq::empty()
        })
    }
}

/// What a mod version asks to have added beside it.
pub open spec fn dependency_requests_of(data: RawModData) -> Seq<DependencyRequest> {
    match data {
        RawModData::Modrinth(v) => modrinth_requests(v.dependencies@),
        RawModData::Curseforge { data, .. } => curseforge_requests(data.dependencies@),
    }
}

/// Only required dependencies are requested. A Modrinth dependency that is not
/// required (optional, incompatible or embedded) adds no request; a required
/// one adds a request for its version when it names one, else for its project
/// when it names one. A CurseForge dependency adds a request for its mod
/// exactly when it is required. A list without required dependencies asks for
/// nothing.
pub proof fn law_only_required_dependencies_are_requested(
    deps: Seq<ModrinthDependency>,
    d: ModrinthDependency,
    files: Seq<crate::mods::FileDependency>,
    f: crate::mods::FileDependency,
)
    ensures
        d.dependency_type != DependencyType::Required ==> modrinth_requests(deps.push(d)) == modrinth_requests(deps),
        d.dependency_type == DependencyType::Required && d.version_id is Some ==> modrinth_requests(deps.push(d))
            == modrinth_requests(deps).push(DependencyRequest::ModrinthVersion(d.version_id->0)),
        d.dependency_type == DependencyType::Required && d.version_id is None && d.project_id is Some ==> modrinth_requests(
            deps.push(d),
        ) == modrinth_requests(deps).push(DependencyRequest::ModrinthProject(d.project_id->0)),
        d.dependency_type == DependencyType::Required && d.version_id is None && d.project_id is None ==> modrinth_requests(
            deps.push(d),
        ) == modrinth_requests(deps),
        f.relation_type != FileRelationType::RequiredDependency ==> curseforge_requests(files.push(f)) == curseforge_requests(files),
        f.relation_type == FileRelationType::RequiredDependency ==> curseforge_requests(files.push(f)) == curseforge_requests(
            files,
        ).push(DependencyRequest::CurseforgeMod(f.mod_id)),
        (forall|i: int| 0 <= i < deps.len() ==> (#[trigger] deps[i]).dependency_type != DependencyType::Required)
            ==> modrinth_requests(deps) == Seq::<DependencyRequest>::empty(),
        (forall|i: int| 0 <= i < files.len() ==> (#[trigger] files[i]).relation_type != FileRelationType::RequiredDependency)
            ==> curseforge_requests(files) == Seq::<DependencyRequest>::empty(),
{
    assert(deps.push(d).drop_last() =~= deps);
    assert(files.push(f).drop_last() =~= files);
    if forall|i: int| 0 <= i < deps.len() ==> (#[trigger] deps[i]).dependency_type != DependencyType::Required {
        lemma_no_required_modrinth(deps);
    }
    if forall|i: int| 0 <= i < files.len() ==> (#[trigger] files[i]).relation_type != FileRelationType::RequiredDependency {
        lemma_no_required_curseforge(files);
    }
}

proof fn lemma_no_required_modrinth(deps: Seq<ModrinthDependency>)
    requires
        forall|i: int| 0 <= i < deps.len() ==> (#[trigger] deps[i]).dependency_type != DependencyType::Required,
    ensures
        modrinth_requests(deps) == Seq::<DependencyRequest>::empty(),
    decreases deps.len(),
{
    if deps.len() > 0 {
        let p = deps.drop_last();
        assert forall|i: int| 0 <= i < p.len() implies (#[trigger] p[i]).dependency_type != DependencyType::Required by {
            assert(p[i] == deps[i]);
        }
        lemma_no_required_modrinth(p);
        assert(deps.last() == deps[deps.len() - 1]);
        assert(modrinth_requests(deps) =~= Seq::<DependencyRequest>::empty());
    }
}

proof fn lemma_no_required_curseforge(files: Seq<crate::mods::FileDependency>)
    requires
        forall|i: int| 0 <= i < files.len() ==> (#[trigger] files[i]).relation_type != FileRelationType::RequiredDependency,
    ensures
        curseforge_requests(files) == Seq::<DependencyRequest>::empty(),
    decreases files.len(),
{
    if files.len() > 0 {
        let p = files.drop_last();
        assert forall|i: int| 0 <= i < p.len() implies (#[trigger] p[i]).relation_type != FileRelationType::RequiredDependency by {
            assert(p[i] == files[i]);
        }
        lemma_no_required_curseforge(p);
        assert(files.last() == files[files.len() - 1]);
        assert(curseforge_requests(files) =~= Seq::<DependencyRequest>::empty());
    }
}

/// The dependencies to add beside `minecraft_mod`, in the order the platform
/// lists them; see `dependency_requests_of`.
pub fn dependency_requests(minecraft_mod: &RawModData) -> (r: Vec<DependencyRequest>)
    ensures
        r@ == dependency_requests_of(*minecraft_mod),
{
    let mut out: Vec<DependencyRequest> = Vec::new();
    match minecraft_mod {
        RawModData::Modrinth(v) => {
            let deps = &v.dependencies;
            let mut i: usize = 0;
            while i < deps.len()
                invariant
                    i <= deps.len(),
                    out@ == modrinth_requests(deps@.take(i as int)),
                decreases deps.len() - i,
            {
                assert(deps@.take(i + 1).drop_last() =~= deps@.take(i as int));
                let d = &deps[i];
                if d.dependency_type == DependencyType::Required {
                    match &d.version_id {
                        Some(id) => out.push(DependencyRequest::ModrinthVersion(id.clone())),
                        None => match &d.project_id {
                            Some(p) => out.push(DependencyRequest::ModrinthProject(p.clone())),
                            None => {},
                        },
                    }
                }
                proof {
                    let prev = modrinth_requests(deps@.take(i as int));
                    assert(out@ =~= prev + modrinth_request(deps@[i as int]));
                }
                i = i + 1;
            }
            assert(deps@.take(deps.len() as int) =~= deps@);
        },
        RawModData::Curseforge { data, .. } => {
            let deps = &data.dependencies;
            let mut i: usize = 0;
            while i < deps.len()
                invariant
                    i <= deps.len(),
                    out@ == curseforge_requests(deps@.take(i as int)),
                decreases deps.len() - i,
            {
                assert(deps@.take(i + 1).drop_last() =~= deps@.take(i as int));
                let d = &deps[i];
                let ghost prev = out@;
                if d.relation_type == FileRelationType::RequiredDependency {
                    out.push(DependencyRequest::CurseforgeMod(d.mod_id));
                }
                proof {
                    if d.relation_type == FileRelationType::RequiredDependency {
                        assert(out@ =~= prev + seq![DependencyRequest::CurseforgeMod(d.mod_id)]);
                    } else {
                        assert(out@ =~= prev + Seq::<DependencyRequest>::empty());
                    }
                }
                i = i + 1;
            }
            assert(deps@.take(deps.len() as int) =~= deps@);
        },
    }
    out
}

/// What a mod's platform tells of its project, besides the version itself.
/// The time is nanoseconds since the Unix epoch; the icon URL is text.
#[derive(Debug)]
pub struct ProjectDetails {
    pub name: String,
    pub long_description: String,
    pub short_description: String,
    pub icon_url: Option<String>,
    pub last_updated: i128,
    pub authors: Vec<String>,
}

/// The project a mod version belongs to.
pub open spec fn project_of(data: RawModData) -> ProjectId {
    match data {
        RawModData::Modrinth(v) => ProjectId::Modrinth(v.project_id),
        RawModData::Curseforge { data, .. } => ProjectId::Curseforge(data.mod_id),
    }
}

impl ModManager {
    /// Makes the metadata of a mod from one of its versions and what the
    /// platform tells of its project. The mod is enabled; only a Modrinth
    /// version has a version number. The second result says whether the mod is
    /// Fabric API.
    pub fn raw_mod_transformation(
        icon_directory: String,
        game_directory: String,
        minecraft_mod_data: RawModData,
        details: ProjectDetails,
        mod_override: Vec<ModOverride>,
        tag: Vec<Tag>,
    ) -> (r: (ModMetadata, bool))
        ensures
            r.0.name == details.name,
            r.0.project_id == project_of(minecraft_mod_data),
            r.0.enabled,
            r.0.authors == details.authors,
            r.0.long_description == details.long_description,
            r.0.short_description == details.short_description,
            r.0.mod_version == (match minecraft_mod_data {
                RawModData::Modrinth(v) => Some(v.version_number),
                RawModData::Curseforge { .. } => None,
            }),
            r.0.tag == tag,
            r.0.overrides == mod_override,
            r.0.incompatiable_mods is None,
            r.0.icon_url == details.icon_url,
            r.0.last_updated == details.last_updated,
            r.0.icon_directory == icon_directory,
            r.0.game_directory == game_directory,
            r.0.mod_data == minecraft_mod_data,
            r.1 == (minecraft_mod_data matches RawModData::Modrinth(v) && v.project_id@ == fabric_api_id()),
    {
        let (project_id, mod_version, fabric) = match &minecraft_mod_data {
            RawModData::Modrinth(v) => (
                ProjectId::Modrinth(v.project_id.clone()),
                Some(v.version_number.clone()),
                is_fabric_api(v.project_id.as_str()),
            ),
            RawModData::Curseforge { data, .. } => (ProjectId::Curseforge(data.mod_id), None, false),
        };
        let metadata = ModMetadata {
            name: details.name,
            project_id,
            long_description: details.long_description,
            short_description: details.short_description,
            mod_version,
            tag,
            incompatiable_mods: None,
            overrides: mod_override,
            mod_data: minecraft_mod_data,
            icon_url: details.icon_url,
            icon_directory,
            last_updated: details.last_updated,
            authors: details.authors,
            enabled: true,
            game_directory,
        };
        (metadata, fabric)
    }
}

/// The versions a CurseForge mod lists: its latest files, each with the index
/// entry at the same position; extra entries of the longer list are dropped.
pub fn curseforge_versions(latest_files: Vec<CurseforgeFile>, latest_files_indexes: Vec<CurseforgeFileIndex>) -> (r: Vec<RawModData>)
    ensures
        r@.len() == (if latest_files@.len() <= latest_files_indexes@.len() { latest_files@.len() } else { latest_files_indexes@.len() }),
        forall|i: int| 0 <= i < r@.len() ==> #[trigger] r@[i] == (RawModData::Curseforge { data: latest_files@[i], metadata: latest_files_indexes@[i] }),
{
    let ghost files0 = latest_files@;
    let ghost indexes0 = latest_files_indexes@;
    let mut files = latest_files;
    let mut indexes = latest_files_indexes;
    let mut out: Vec<RawModData> = Vec::new();
    let n = if files.len() <= indexes.len() { files.len() } else { indexes.len() };
    let mut i: usize = 0;
    while i < n
        invariant
            n == (if files0.len() <= indexes0.len() { files0.len() } else { indexes0.len() }),
            i <= n,
            files@ == files0.subrange(i as int, files0.len() as int),
            indexes@ == indexes0.subrange(i as int, indexes0.len() as int),
            out@.len() == i,
            forall|k: int| 0 <= k < i ==> #[trigger] out@[k] == (RawModData::Curseforge { data: files0[k], metadata: indexes0[k] }),
        decreases n - i,
    {
        let data = files.remove(0);
        let metadata = indexes.remove(0);
        out.push(RawModData::Curseforge { data, metadata });
        assert(files@ =~= files0.subrange(i + 1, files0.len() as int));
        assert(indexes@ =~= indexes0.subrange(i + 1, indexes0.len() as int));
        i = i + 1;
    }
    out
}

/// `k` is the position of the first game version of `all` with id `id`.
pub open spec fn is_first_version(all: Seq<VersionMetadata>, id: Seq<char>, k: int) -> bool {
    &&& 0 <= k < all.len()
    &&& all[k].id@ == id
    &&& forall|j: int| 0 <= j < k ==> (#[trigger] all[j]).id@ != id
}

/// Position of the first game version of `all` with id `id`.
fn find_version(all: &[VersionMetadata], id: &str) -> (r: Option<usize>)
    ensures
        match r {
            Some(k) => is_first_version(all@, id@, k as int),
            None => forall|j: int| 0 <= j < all@.len() ==> (#[trigger] all@[j]).id@ != id@,
        },
{
    let mut i: usize = 0;
    while i < all.len()
        invariant
            i <= all@.len(),
            forall|j: int| 0 <= j < i ==> (#[trigger] all@[j]).id@ != id@,
        decreases all@.len() - i,
    {
        if str_eq(all[i].id.as_str(), id) {
            return Some(i);
        }
        i = i + 1;
    }
    None
}

impl ModManager {
    /// Chooses the version of the project `name` to add, among `versions`, for
    /// the collection's game version and loader; see
    /// `fetch_version_modloader_constraints`. The collection's game version is
    /// the first of `all_game_versions` with its id, which must be listed. Fails
    /// with `ProjectModloaderLookup` when no version fits.
    pub fn select_project_version(
        &self,
        name: &str,
        all_game_versions: &[VersionMetadata],
        versions: Vec<RawModData>,
        mod_override: &Vec<ModOverride>,
    ) -> (r: Result<RawModData, ModError>)
        requires
            exists|k: int| 0 <= k < all_game_versions@.len() && (#[trigger] all_game_versions@[k]).id@ == self.target_game_version.id@,
        ensures
            forall|g: int| #[trigger] is_first_version(all_game_versions@, self.target_game_version.id@, g) ==> {
                let loader = self.mod_loader.mod_loader_type;
                let accepted = exists|i: int| 0 <= i < versions@.len() && loader_accepts(#[trigger] versions@[i], loader, mod_override@);
                let c = chosen_index(versions@, all_game_versions@, all_game_versions@[g], loader, mod_override@);
                &&& (r is Err) == (!accepted || c < 0)
                &&& r matches Err(e) ==> (e matches ModError::ProjectModloaderLookup { mod_loader, project } && mod_loader == loader && project@ == name@)
                &&& r matches Ok(x) ==> 0 <= c < versions@.len() && primary_version_of(x, versions@[c])
            },
    {
        let g = match find_version(all_game_versions, self.target_game_version.id.as_str()) {
            Some(g) => g,
            None => {
                proof {
                    let k = choose|k: int| 0 <= k < all_game_versions@.len() && (#[trigger] all_game_versions@[k]).id@ == self.target_game_version.id@;
                    assert(all_game_versions@[k].id@ != self.target_game_version.id@);
                }
                return Err(ModError::ProjectModloaderLookup { mod_loader: self.mod_loader.mod_loader_type, project: name.to_owned() });
            },
        };
        proof {
            assert forall|q: int| #[trigger] is_first_version(all_game_versions@, self.target_game_version.id@, q) implies q == g by {
                if q < g {
                    assert(all_game_versions@[q].id@ != self.target_game_version.id@);
                }
                if q > g {
                    assert(all_game_versions@[g as int].id@ != self.target_game_version.id@);
                }
            }
        }
        let loader = self.mod_loader.mod_loader_type;
        match fetch_version_modloader_constraints(name, all_game_versions, &all_game_versions[g], loader, versions, mod_override) {
            Err(e) => Err(e),
            Ok(None) => Err(ModError::ProjectModloaderLookup { mod_loader: loader, project: name.to_owned() }),
            Ok(Some(x)) => Ok(x),
        }
    }

    /// Keeps the game versions of the version manifest for later choices; a
    /// list kept before stays.
    pub fn cache_game_versions(&mut self, versions: Vec<VersionMetadata>)
        ensures
            final(self).cache == (if old(self).cache is None { Some(versions) } else { old(self).cache }),
            final(self).mods == old(self).mods,
            final(self).game_directory == old(self).game_directory,
            final(self).icon_directory == old(self).icon_directory,
            final(self).mod_loader == old(self).mod_loader,
            final(self).target_game_version == old(self).target_game_version,
    {
        if self.cache.is_none() {
            self.cache = Some(versions);
        }
    }
}

/// `contents` have one of the SHA-1s of `sha1s`.
pub open spec fn any_hash_matches(contents: Seq<u8>, sha1s: Seq<Seq<char>>) -> bool {
    exists|i: int| 0 <= i < sha1s.len() && hash_matches(contents, #[trigger] sha1s[i])
}

/// Whether `contents` have one of the SHA-1s of `hashes`.
pub fn hashes_validate(contents: &[u8], hashes: &Vec<String>) -> (r: bool)
    ensures
        r == any_hash_matches(contents@, views(hashes@)),
{
    let mut i: usize = 0;
    while i < hashes.len()
        invariant
            i <= hashes@.len(),
            forall|k: int| 0 <= k < i ==> !hash_matches(contents@, #[trigger] views(hashes@)[k]),
        decreases hashes@.len() - i,
    {
        let ok = validate_sha1(contents, hashes[i].as_str()).is_ok();
        assert(views(hashes@)[i as int] == hashes@[i as int]@);
        if ok {
            return true;
        }
        i = i + 1;
    }
    false
}

/// A file a mod needs: where it is fetched from, where it goes, its size, and
/// the SHA-1s a good copy may have.
#[derive(Debug)]
pub struct FileTarget {
    pub url: String,
    pub path: String,
    pub size: usize,
    pub sha1s: Vec<String>,
}

/// A file target as plain values: URL, path, size and SHA-1s.
pub open spec fn target_view(t: FileTarget) -> (Seq<char>, Seq<char>, usize, Seq<Seq<char>>) {
    (t.url@, t.path@, t.size, views(t.sha1s@))
}

/// The SHA-1 values among CurseForge file hashes, in order.
pub open spec fn sha1_values(hashes: Seq<FileHash>) -> Seq<Seq<char>>
    decreases hashes.len(),
{
    if hashes.len() == 0 {
        Seq::empty()
    } else if hashes.last().algo == HashAlgo::Sha1 {
        sha1_values(hashes.drop_last()).push(hashes.last().value@)
    } else {
        sha1_values(hashes.drop_last())
    }
}

/// The targets of Modrinth files placed in `base`.
pub open spec fn modrinth_targets(files: Seq<ModrinthFile>, base: Seq<char>) -> Seq<(Seq<char>, Seq<char>, usize, Seq<Seq<char>>)> {
    files.map_values(|f: ModrinthFile| (f.url@, path_join(base, f.filename@), f.size, seq![f.sha1@]))
}

/// The files of one mod placed in `base`; `None` for a CurseForge file without
/// a download link.
pub open spec fn mod_targets(m: ModMetadata, base: Seq<char>) -> Option<Seq<(Seq<char>, Seq<char>, usize, Seq<Seq<char>>)>> {
    match m.mod_data {
        RawModData::Modrinth(v) => Some(modrinth_targets(v.files@, base)),
        RawModData::Curseforge { data, .. } => match data.download_url {
            Some(u) => Some(seq![(u@, path_join(base, data.file_name@), data.file_length, sha1_values(data.hashes@))]),
            None => None,
        },
    }
}

/// The files of all `mods` placed in `base`, in order; the file name of the
/// first CurseForge file without a download link when there is one.
pub open spec fn all_targets(mods: Seq<ModMetadata>, base: Seq<char>) -> Result<Seq<(Seq<char>, Seq<char>, usize, Seq<Seq<char>>)>, Seq<char>>
    decreases mods.len(),
{
    if mods.len() == 0 {
        Ok(Seq::empty())
    } else {
        match all_targets(mods.drop_last(), base) {
            Err(e) => Err(e),
            Ok(t) => match mod_targets(mods.last(), base) {
                Some(x) => Ok(t + x),
                None => Err(match mods.last().mod_data {
                    RawModData::Curseforge { data, .. } => data.file_name@,
                    RawModData::Modrinth(_) => Seq::empty(),
                }),
            },
        }
    }
}

/// The SHA-1 values among `hashes`.
fn sha1_hashes(hashes: &Vec<FileHash>) -> (r: Vec<String>)
    ensures
        views(r@) == sha1_values(hashes@),
{
    let mut out: Vec<String> = Vec::new();
    let mut i: usize = 0;
    while i < hashes.len()
        invariant
            i <= hashes@.len(),
            views(out@) == sha1_values(hashes@.take(i as int)),
        decreases hashes@.len() - i,
    {
        assert(hashes@.take(i + 1).drop_last() =~= hashes@.take(i as int));
        let ghost prev = views(out@);
        if hashes[i].algo == HashAlgo::Sha1 {
            out.push(hashes[i].value.clone());
            assert(views(out@) =~= prev.push(hashes@[i as int].value@));
        }
        i = i + 1;
    }
    assert(hashes@.take(hashes@.len() as int) =~= hashes@);
    out
}

/// Appends the targets of one mod placed in `base` to `out`; fails for a
/// CurseForge file without a download link.
fn push_mod_targets(out: &mut Vec<FileTarget>, m: &ModMetadata, base: &str) -> (r: Result<(), ModError>)
    ensures
        match mod_targets(*m, base@) {
            Some(x) => r is Ok && final(out)@.map_values(|t: FileTarget| target_view(t)) == old(out)@.map_values(|t: FileTarget| target_view(t)) + x,
            None => r matches Err(ModError::SharingDisabled { minecraft_mod }) && (m.mod_data matches RawModData::Curseforge { data, .. } && minecraft_mod@ == data.file_name@),
        },
{
    match &m.mod_data {
        RawModData::Modrinth(v) => {
            let files = &v.files;
            let ghost start = out@.map_values(|t: FileTarget| target_view(t));
            let mut i: usize = 0;
            while i < files.len()
                invariant
                    i <= files@.len(),
                    out@.map_values(|t: FileTarget| target_view(t)) == start + modrinth_targets(files@.take(i as int), base@),
                decreases files@.len() - i,
            {
                let f = &files[i];
                let mut sha1s: Vec<String> = Vec::new();
                sha1s.push(f.sha1.clone());
                let t = FileTarget { url: f.url.clone(), path: join_path(base, f.filename.as_str()), size: f.size, sha1s };
                assert(views(t.sha1s@) =~= seq![f.sha1@]);
                let ghost prev = out@.map_values(|t: FileTarget| target_view(t));
                out.push(t);
                assert(out@.map_values(|t: FileTarget| target_view(t)) =~= prev.push(target_view(t)));
                assert(modrinth_targets(files@.take(i + 1), base@) =~= modrinth_targets(files@.take(i as int), base@).push(target_view(t)));
                i = i + 1;
            }
            assert(files@.take(files@.len() as int) =~= files@);
            Ok(())
        },
        RawModData::Curseforge { data, .. } => match &data.download_url {
            None => Err(ModError::SharingDisabled { minecraft_mod: data.file_name.clone() }),
            Some(u) => {
                let t = FileTarget {
                    url: u.clone(),
                    path: join_path(base, data.file_name.as_str()),
                    size: data.file_length,
                    sha1s: sha1_hashes(&data.hashes),
                };
                let ghost prev = out@.map_values(|t: FileTarget| target_view(t));
                out.push(t);
                assert(out@.map_values(|t: FileTarget| target_view(t)) =~= prev + seq![target_view(t)]);
                Ok(())
            },
        },
    }
}

impl ModManager {
    /// The directory of the collection's mod files: `mods` in the game directory.
    pub fn mods_directory(&self) -> (r: String)
        ensures
            r@ == path_join(self.game_directory@, "mods"@),
    {
        join_path(self.game_directory.as_str(), "mods")
    }

    /// The files the collection's mods need, in the order of the mods; see
    /// `all_targets`. Fails with `SharingDisabled` for the first CurseForge mod
    /// without a download link.
    pub fn download_targets(&self) -> (r: Result<Vec<FileTarget>, ModError>)
        ensures
            match all_targets(self.mods@, path_join(self.game_directory@, "mods"@)) {
                Ok(t) => r matches Ok(v) && v@.map_values(|t: FileTarget| target_view(t)) == t,
                Err(name) => r matches Err(ModError::SharingDisabled { minecraft_mod }) && minecraft_mod@ == name,
            },
    {
        let base = self.mods_directory();
        let mut out: Vec<FileTarget> = Vec::new();
        let mut i: usize = 0;
        while i < self.mods.len()
            invariant
                i <= self.mods@.len(),
                base@ == path_join(self.game_directory@, "mods"@),
                all_targets(self.mods@.take(i as int), base@) matches Ok(t) && out@.map_values(|t: FileTarget| target_view(t)) == t,
            decreases self.mods@.len() - i,
        {
            assert(self.mods@.take(i + 1).drop_last() =~= self.mods@.take(i as int));
            match push_mod_targets(&mut out, &self.mods[i], base.as_str()) {
                Err(e) => {
                    proof {
                        lemma_targets_fail_prefix(self.mods@, i as int, base@);
                    }
                    return Err(e);
                },
                Ok(()) => {},
            }
            i = i + 1;
        }
        assert(self.mods@.take(self.mods@.len() as int) =~= self.mods@);
        Ok(out)
    }
}

/// When the first `i` mods have targets and mod `i` has none, all of `mods`
/// fail with the name of mod `i`.
proof fn lemma_targets_fail_prefix(mods: Seq<ModMetadata>, i: int, base: Seq<char>)
    requires
        0 <= i < mods.len(),
        all_targets(mods.take(i), base) is Ok,
        mod_targets(mods[i], base) is None,
    ensures
        all_targets(mods, base) == all_targets(mods.take(i + 1), base),
        all_targets(mods, base) is Err,
    decreases mods.len(),
{
    assert(mods.take(i + 1).drop_last() =~= mods.take(i));
    if mods.len() == i + 1 {
        assert(mods.take(i + 1) =~= mods);
    } else {
        assert(mods.drop_last().take(i) =~= mods.take(i));
        assert(mods.drop_last().take(i + 1) =~= mods.take(i + 1));
        lemma_targets_fail_prefix(mods.drop_last(), i, base);
    }
}

/// A file is to be fetched when it is missing (`contents` is `None`) or has
/// none of its target's SHA-1s.
pub fn target_needs_download(target: &FileTarget, contents: Option<&[u8]>) -> (r: bool)
    ensures
        r == match contents {
            None => true,
            Some(c) => !any_hash_matches(c@, views(target.sha1s@)),
        },
{
    match contents {
        None => true,
        Some(c) => !hashes_validate(c, &target.sha1s),
    }
}

/// The URL text `u` names a file: it parses, its path starts with `/`, and
/// the last segment of its path is not empty.
pub open spec fn names_file(u: Seq<char>) -> bool {
    url_path_of(u) is Some && has_segments(url_path_of(u)->0) && last_segment(url_path_of(u)->0).len() > 0
}

/// Where the icon of `m` is kept: in its icon directory, named after the
/// project and the last segment of the icon URL; `None` without an icon.
pub open spec fn icon_path_of(m: ModMetadata) -> Option<Seq<char>> {
    match m.icon_url {
        None => None,
        Some(u) => Some(path_join(m.icon_directory@, project_id_text(m.project_id) + seq!['_'] + last_segment(url_path_of(u@)->0))),
    }
}

/// The icon URL of `m`, if any, names a file.
pub open spec fn icon_nameable(m: ModMetadata) -> bool {
    m.icon_url matches Some(u) ==> names_file(u@)
}

impl ModMetadata {
    /// Where the mod's icon is kept; see `icon_path_of`. The icon URL, if any,
    /// must name a file.
    pub fn get_icon_path(&self) -> (r: Option<String>)
        requires
            icon_nameable(*self),
        ensures
            match r {
                Some(p) => icon_path_of(*self) == Some(p@),
                None => icon_path_of(*self) is None,
            },
    {
        match &self.icon_url {
            None => None,
            Some(u) => match extract_filename(u.as_str()) {
                Ok(file) => {
                    let mut name = self.project_id.to_string();
                    let sep = "_";
                    proof {
                        reveal_strlit("_");
                    }
                    name.append(sep);
                    name.append(file.as_str());
                    Some(join_path(self.icon_directory.as_str(), name.as_str()))
                },
                Err(_) => None,
            },
        }
    }
}

/// An icon to fetch: its URL and where it goes.
#[derive(Debug)]
pub struct IconTarget {
    pub url: String,
    pub path: String,
}

/// The icons of `mods`, in order, as URL and path; `None` when an icon URL of
/// one of them names no file.
pub open spec fn icon_targets_of(mods: Seq<ModMetadata>) -> Option<Seq<(Seq<char>, Seq<char>)>>
    decreases mods.len(),
{
    if mods.len() == 0 {
        Some(Seq::empty())
    } else {
        match icon_targets_of(mods.drop_last()) {
            None => None,
            Some(t) => {
                let m = mods.last();
                if !icon_nameable(m) {
                    None
                } else {
                    match m.icon_url {
                        Some(u) => Some(t.push((u@, icon_path_of(m)->0))),
                        None => Some(t),
                    }
                }
            },
        }
    }
}

impl ModManager {
    /// The icons of the collection's mods; see `icon_targets_of`. `None` when
    /// some icon URL names no file.
    pub fn icon_targets(&self) -> (r: Option<Vec<IconTarget>>)
        ensures
            match icon_targets_of(self.mods@) {
                None => r is None,
                Some(t) => r matches Some(v) && v@.map_values(|x: IconTarget| (x.url@, x.path@)) == t,
            },
    {
        let mut out: Vec<IconTarget> = Vec::new();
        let mut i: usize = 0;
        while i < self.mods.len()
            invariant
                i <= self.mods@.len(),
                icon_targets_of(self.mods@.take(i as int)) matches Some(t) && out@.map_values(|x: IconTarget| (x.url@, x.path@)) == t,
            decreases self.mods@.len() - i,
        {
            assert(self.mods@.take(i + 1).drop_last() =~= self.mods@.take(i as int));
            let m = &self.mods[i];
            match &m.icon_url {
                None => {},
                Some(u) => {
                    if extract_filename(u.as_str()).is_err() {
                        proof {
                            lemma_icons_fail_prefix(self.mods@, i as int);
                        }
                        return None;
                    }
                    let path = m.get_icon_path();
                    match path {
                        Some(p) => {
                            let ghost prev = out@.map_values(|x: IconTarget| (x.url@, x.path@));
                            out.push(IconTarget { url: u.clone(), path: p });
                            assert(out@.map_values(|x: IconTarget| (x.url@, x.path@)) =~= prev.push((u@, icon_path_of(*m)->0)));
                        },
                        None => {},
                    }
                },
            }
            i = i + 1;
        }
        assert(self.mods@.take(self.mods@.len() as int) =~= self.mods@);
        Some(out)
    }
}

/// When the icons of the first `i` mods are nameable and that of mod `i` is
/// not, the icons of all `mods` are not.
proof fn lemma_icons_fail_prefix(mods: Seq<ModMetadata>, i: int)
    requires
        0 <= i < mods.len(),
        icon_targets_of(mods.take(i)) is Some,
        !icon_nameable(mods[i]),
    ensures
        icon_targets_of(mods) is None,
    decreases mods.len(),
{
    assert(mods.take(i + 1).drop_last() =~= mods.take(i));
    if mods.len() == i + 1 {
        assert(mods.take(i + 1) =~= mods);
    } else {
        assert(mods.drop_last().take(i) =~= mods.take(i));
        lemma_icons_fail_prefix(mods.drop_last(), i);
    }
}

/// A file to check for a mod: its path and the SHA-1s a good copy may have.
#[derive(Debug)]
pub struct FileCheck {
    pub path: String,
    pub sha1s: Vec<String>,
}

/// The files to check for `m`, in its own `mods` directory. A CurseForge file
/// without a download link gives none.
pub open spec fn file_checks_of(m: ModMetadata) -> Seq<(Seq<char>, Seq<Seq<char>>)> {
    let base = path_join(m.game_directory@, "mods"@);
    match m.mod_data {
        RawModData::Modrinth(v) => v.files@.map_values(|f: ModrinthFile| (path_join(base, f.filename@), seq![f.sha1@])),
        RawModData::Curseforge { data, .. } => if data.download_url is Some {
            seq![(path_join(base, data.file_name@), sha1_values(data.hashes@))]
        } else {
            Seq::empty()
        },
    }
}

impl ModMetadata {
    /// The files to check for the mod; see `file_checks_of`.
    pub fn file_checks(&self) -> (r: Vec<FileCheck>)
        ensures
            r@.map_values(|c: FileCheck| (c.path@, views(c.sha1s@))) == file_checks_of(*self),
    {
        let base = self.base_path();
        let mut out: Vec<FileCheck> = Vec::new();
        match &self.mod_data {
            RawModData::Modrinth(v) => {
                let files = &v.files;
                let mut i: usize = 0;
                while i < files.len()
                    invariant
                        i <= files@.len(),
                        base@ == path_join(self.game_directory@, "mods"@),
                        out@.map_values(|c: FileCheck| (c.path@, views(c.sha1s@))) == files@.take(i as int).map_values(
                            |f: ModrinthFile| (path_join(base@, f.filename@), seq![f.sha1@]),
                        ),
                    decreases files@.len() - i,
                {
                    let f = &files[i];
                    let mut sha1s: Vec<String> = Vec::new();
                    sha1s.push(f.sha1.clone());
                    let c = FileCheck { path: join_path(base.as_str(), f.filename.as_str()), sha1s };
                    assert(views(c.sha1s@) =~= seq![f.sha1@]);
                    let ghost prev = out@.map_values(|c: FileCheck| (c.path@, views(c.sha1s@)));
                    out.push(c);
                    assert(out@.map_values(|c: FileCheck| (c.path@, views(c.sha1s@))) =~= prev.push((c.path@, views(c.sha1s@))));
                    assert(files@.take(i + 1).map_values(|f: ModrinthFile| (path_join(base@, f.filename@), seq![f.sha1@]))
                        =~= files@.take(i as int).map_values(|f: ModrinthFile| (path_join(base@, f.filename@), seq![f.sha1@])).push((c.path@, views(c.sha1s@))));
                    i = i + 1;
                }
                assert(files@.take(files@.len() as int) =~= files@);
            },
            RawModData::Curseforge { data, .. } => {
                if data.download_url.is_some() {
                    let c = FileCheck { path: join_path(base.as_str(), data.file_name.as_str()), sha1s: sha1_hashes(&data.hashes) };
                    out.push(c);
                    assert(out@.map_values(|c: FileCheck| (c.path@, views(c.sha1s@))) =~= seq![(c.path@, views(c.sha1s@))]);
                } else {
                    assert(out@.map_values(|c: FileCheck| (c.path@, views(c.sha1s@))) =~= Seq::<(Seq<char>, Seq<Seq<char>>)>::empty());
                }
            },
        }
        out
    }

    /// Whether the mod's files are in place: each file of `file_checks_of` is
    /// present (its contents are in `contents`, at the same position) and has
    /// one of its SHA-1s.
    pub fn mod_is_downloaded(&self, contents: &Vec<Option<Vec<u8>>>) -> (r: bool)
        requires
            contents@.len() == file_checks_of(*self).len(),
        ensures
            r == forall|i: int| 0 <= i < contents@.len() ==> (#[trigger] contents@[i] matches Some(c)
                && any_hash_matches(c@, file_checks_of(*self)[i].1)),
    {
        let checks = self.file_checks();
        let ghost cv = checks@.map_values(|c: FileCheck| (c.path@, views(c.sha1s@)));
        let mut i: usize = 0;
        while i < contents.len()
            invariant
                i <= contents@.len(),
                contents@.len() == checks@.len(),
                cv == checks@.map_values(|c: FileCheck| (c.path@, views(c.sha1s@))),
                cv == file_checks_of(*self),
                forall|k: int| 0 <= k < i ==> (#[trigger] contents@[k] matches Some(c) && any_hash_matches(c@, cv[k].1)),
            decreases contents@.len() - i,
        {
            assert(cv[i as int].1 == views(checks@[i as int].sha1s@));
            match &contents[i] {
                None => {
                    return false;
                },
                Some(c) => {
                    if !hashes_validate(c.as_slice(), &checks[i].sha1s) {
                        return false;
                    }
                },
            }
            i = i + 1;
        }
        true
    }
}

/// The mod `m` has a file with the SHA-1 spelled `hash`: a Modrinth file's
/// SHA-1, or a SHA-1 among a CurseForge file's hashes.
pub open spec fn mod_has_hash(m: ModMetadata, hash: Seq<char>) -> bool {
    match m.mod_data {
        RawModData::Modrinth(v) => exists|i: int| 0 <= i < v.files@.len() && (#[trigger] v.files@[i]).sha1@ == hash,
        RawModData::Curseforge { data, .. } => sha1_values(data.hashes@).contains(hash),
    }
}

/// The SHA-1 of a file's contents in lowercase hexadecimal, as the collection
/// records it.
pub fn file_hash_text(contents: &[u8]) -> (r: String)
    ensures
        r@ == hex_lower(sha1_of(contents@)),
{
    let digest = sha1_digest(contents);
    hex_encode(digest.as_slice())
}

/// Whether `m` has a file with the SHA-1 spelled `hash`.
fn has_hash(m: &ModMetadata, hash: &str) -> (r: bool)
    ensures
        r == mod_has_hash(*m, hash@),
{
    match &m.mod_data {
        RawModData::Modrinth(v) => {
            let mut i: usize = 0;
            while i < v.files.len()
                invariant
                    m.mod_data == RawModData::Modrinth(*v),
                    i <= v.files@.len(),
                    forall|q: int| 0 <= q < i ==> (#[trigger] v.files@[q]).sha1@ != hash@,
                decreases v.files@.len() - i,
            {
                if str_eq(v.files[i].sha1.as_str(), hash) {
                    assert(v.files@[i as int].sha1@ == hash@);
                    assert(m.mod_data matches RawModData::Modrinth(w) && w.files@[i as int].sha1@ == hash@);
                    return true;
                }
                i = i + 1;
            }
            false
        },
        RawModData::Curseforge { data, .. } => {
            let values = sha1_hashes(&data.hashes);
            let mut i: usize = 0;
            while i < values.len()
                invariant
                    m.mod_data matches RawModData::Curseforge { data: d, .. } && d == *data,
                    views(values@) == sha1_values(data.hashes@),
                    i <= values@.len(),
                    forall|q: int| 0 <= q < i ==> (#[trigger] views(values@)[q]) != hash@,
                decreases values@.len() - i,
            {
                assert(views(values@)[i as int] == values@[i as int]@);
                if str_eq(values[i].as_str(), hash) {
                    assert(sha1_values(data.hashes@)[i as int] == hash@);
                    return true;
                }
                i = i + 1;
            }
            assert(!views(values@).contains(hash@));
            false
        },
    }
}

impl ModManager {
    /// Whether some mod of the collection has a file with the SHA-1 `hash`.
    pub fn contains_hash(&self, hash: &str) -> (r: bool)
        ensures
            r == exists|k: int| 0 <= k < self.mods@.len() && mod_has_hash(#[trigger] self.mods@[k], hash@),
    {
        let mut k: usize = 0;
        while k < self.mods.len()
            invariant
                k <= self.mods@.len(),
                forall|j: int| 0 <= j < k ==> !mod_has_hash(#[trigger] self.mods@[j], hash@),
            decreases self.mods@.len() - k,
        {
            if has_hash(&self.mods[k], hash) {
                return true;
            }
            k = k + 1;
        }
        false
    }
}

/// No two mods of `mods` belong to the same project.
pub open spec fn distinct_projects(mods: Seq<ModMetadata>) -> bool {
    forall|i: int, j: int| 0 <= i < j < mods.len() ==> !same_project(#[trigger] mods[i].project_id, #[trigger] mods[j].project_id)
}

/// Offering a mod keeps the collection free of two mods of one project: a
/// version of a project already there takes that mod's place, and a new
/// project is added only when no mod of it is there.
pub proof fn law_offer_keeps_projects_distinct(mods: Seq<ModMetadata>, new: ModMetadata, k: int)
    requires
        distinct_projects(mods),
    ensures
        is_first_of_project(mods, new.project_id, k) ==> distinct_projects(mods.update(k, new)),
        !has_project(mods, new.project_id) ==> distinct_projects(mods.push(new)),
{
    if is_first_of_project(mods, new.project_id, k) {
        let m = mods.update(k, new);
        assert forall|i: int, j: int| 0 <= i < j < m.len() implies !same_project(#[trigger] m[i].project_id, #[trigger] m[j].project_id) by {
            if i == k {
                assert(!same_project(mods[k].project_id, mods[j].project_id));
            } else if j == k {
                assert(!same_project(mods[i].project_id, mods[k].project_id));
            } else {
                assert(!same_project(mods[i].project_id, mods[j].project_id));
            }
        }
    }
    if !has_project(mods, new.project_id) {
        let m = mods.push(new);
        assert forall|i: int, j: int| 0 <= i < j < m.len() implies !same_project(#[trigger] m[i].project_id, #[trigger] m[j].project_id) by {
            if j == mods.len() {
                if same_project(mods[i].project_id, new.project_id) {
                    assert(has_project(mods, new.project_id));
                }
            } else {
                assert(!same_project(mods[i].project_id, mods[j].project_id));
            }
        }
    }
}

/// The mods after a whole add of `new` to `before`: a mod of the same project
/// is replaced when `new` is newer and kept otherwise; a new project is
/// appended to `after_dependencies`, the mods once its required dependencies
/// were added, unless QSL is to be added in its place (`add_qsl`).
pub open spec fn whole_add(
    before: Seq<ModMetadata>,
    new: ModMetadata,
    after_dependencies: Seq<ModMetadata>,
    add_qsl: bool,
) -> Seq<ModMetadata> {
    if has_project(before, new.project_id) {
        let k = choose|k: int| is_first_of_project(before, new.project_id, k);
        if mod_order(new, before[k]) == VersionOrder::Greater {
            before.update(k, new)
        } else {
            before
        }
    } else if add_qsl {
        after_dependencies
    } else {
        after_dependencies.push(new)
    }
}

/// A whole add keeps the collection free of two mods of one project, when it
/// was so before and, for a new project, its dependencies were added the same
/// way and did not bring in a mod of that project (the required dependencies
/// reachable from it do not lead back to it). A mod of a project already there
/// changes only the first mod of that project, which becomes `new` exactly when
/// `new` is newer.
pub proof fn law_add_keeps_projects_distinct(
    before: Seq<ModMetadata>,
    new: ModMetadata,
    after_dependencies: Seq<ModMetadata>,
    add_qsl: bool,
)
    requires
        distinct_projects(before),
        !has_project(before, new.project_id) ==> distinct_projects(after_dependencies) && !has_project(
            after_dependencies,
            new.project_id,
        ),
    ensures
        distinct_projects(whole_add(before, new, after_dependencies, add_qsl)),
        forall|k: int| #[trigger] is_first_of_project(before, new.project_id, k) ==> {
            &&& whole_add(before, new, after_dependencies, add_qsl).len() == before.len()
            &&& forall|j: int| 0 <= j < before.len() && j != k ==> #[trigger] whole_add(before, new, after_dependencies, add_qsl)[j] == before[j]
            &&& whole_add(before, new, after_dependencies, add_qsl)[k] == (if mod_order(new, before[k]) == VersionOrder::Greater { new } else { before[k] })
        },
{
    if has_project(before, new.project_id) {
        let w = choose|w: int| 0 <= w < before.len() && same_project(#[trigger] before[w].project_id, new.project_id);
        assert forall|j: int| 0 <= j < before.len() && same_project(#[trigger] before[j].project_id, new.project_id) implies j == w by {
            if j < w {
                assert(!same_project(before[j].project_id, before[w].project_id));
            } else if j > w {
                assert(!same_project(before[w].project_id, before[j].project_id));
            }
        }
        assert(is_first_of_project(before, new.project_id, w));
        let k = choose|k: int| is_first_of_project(before, new.project_id, k);
        assert(k == w);
        law_offer_keeps_projects_distinct(before, new, k);
    } else if !add_qsl {
        law_offer_keeps_projects_distinct(after_dependencies, new, 0);
    }
}

impl ModMetadata {
    /// The mod is to be updated when its project changed after the mod was last
    /// updated; `project_updated` is when the platform says the project changed.
    pub fn needs_update(&self, project_updated: i128) -> (r: bool)
        ensures
            r == (project_updated > self.last_updated),
    {
        project_updated > self.last_updated
    }
}

impl ModManager {
    /// The search facets of the collection: the loader's name as a category
    /// and the collection's game version.
    pub fn search_facets(&self) -> (r: (String, String))
        ensures
            r.0@ == loader_type_name(self.mod_loader.mod_loader_type),
            r.1@ == self.target_game_version.id@,
    {
        (self.mod_loader.to_string(), self.target_game_version.id.clone())
    }
}

} // verus!
