use era_connect::collection::{ModLoader, ModLoaderType};
use era_connect::mod_manager::{
    curseforge_versions, dependency_requests, file_hash_text, hashes_validate, is_fabric_api,
    target_needs_download, AddModStep, DependencyRequest, ModManager, ModMetadata, ProjectDetails,
    ProjectId, VersionOrder,
};
use era_connect::mods::{
    CurseforgeFile, CurseforgeFileIndex, CurseforgeModLoader, DependencyType, FileDependency,
    FileHash, FileRelationType, HashAlgo, ModError, ModOverride, ModrinthDependency, ModrinthFile,
    ModrinthVersion, Platform, RawModData, Tag,
};
use era_connect::version::{VersionMetadata, VersionType};

const ABC_SHA1: &str = "a9993e364706816aba3e25717850c26c9cd0d89d";

fn game(id: &str) -> VersionMetadata {
    VersionMetadata {
        id: String::from(id),
        version_type: VersionType::Release,
        url: String::new(),
        uploaded_time: 0,
        release_time: 0,
        sha1: String::new(),
        compliance_level: 0,
    }
}

fn modrinth_version(project: &str, number: &str, deps: Vec<ModrinthDependency>) -> ModrinthVersion {
    ModrinthVersion {
        project_id: String::from(project),
        version_number: String::from(number),
        loaders: vec![String::from("fabric")],
        game_versions: vec![String::from("1.20.1")],
        date_published: 0,
        downloads: 42,
        files: vec![ModrinthFile {
            sha1: String::from(ABC_SHA1),
            url: String::from("https://cdn.example.com/a.jar"),
            filename: String::from("a.jar"),
            primary: true,
            size: 3,
        }],
        dependencies: deps,
    }
}

fn curseforge_file(url: Option<&str>) -> CurseforgeFile {
    CurseforgeFile {
        mod_id: 238222,
        file_name: String::from("jei.jar"),
        download_url: url.map(String::from),
        hashes: vec![
            FileHash { value: String::from("ffff"), algo: HashAlgo::Md5 },
            FileHash { value: String::from(ABC_SHA1), algo: HashAlgo::Sha1 },
        ],
        file_length: 9,
        game_versions: vec![String::from("1.20.1")],
        file_date: 5,
        download_count: 7,
        dependencies: vec![
            FileDependency { mod_id: 1, relation_type: FileRelationType::RequiredDependency },
            FileDependency { mod_id: 2, relation_type: FileRelationType::OptionalDependency },
        ],
    }
}

fn details(name: &str, updated: i128, icon: Option<&str>) -> ProjectDetails {
    ProjectDetails {
        name: String::from(name),
        long_description: String::from("long"),
        short_description: String::from("short"),
        icon_url: icon.map(String::from),
        last_updated: updated,
        authors: vec![String::from("someone")],
    }
}

fn metadata(data: RawModData, updated: i128, icon: Option<&str>) -> ModMetadata {
    let (m, _) = ModManager::raw_mod_transformation(
        String::from("/icons"),
        String::from("/game"),
        data,
        details("Mod", updated, icon),
        Vec::new(),
        vec![Tag::Explicit],
    );
    m
}

fn manager(loader: ModLoaderType) -> ModManager {
    ModManager::new(String::from("/game"), String::from("/icons"), ModLoader::new(loader, None), game("1.20.1"))
}

#[test]
fn project_ids_print_and_compare() {
    assert_eq!(ProjectId::Modrinth(String::from("AANobbMI")).to_string(), "AANobbMI");
    assert_eq!(ProjectId::Curseforge(238222).to_string(), "238222");
    assert_eq!(ProjectId::Curseforge(-5).to_string(), "-5");
    assert!(ProjectId::Curseforge(1).same_as(&ProjectId::Curseforge(1)));
    assert!(!ProjectId::Curseforge(1).same_as(&ProjectId::Modrinth(String::from("1"))));
}

#[test]
fn raw_mod_transformation_fills_the_metadata() {
    let (m, fabric) = ModManager::raw_mod_transformation(
        String::from("/icons"),
        String::from("/game"),
        RawModData::Modrinth(modrinth_version("P7dR8mSH", "0.90.0", Vec::new())),
        details("Fabric API", 10, None),
        vec![ModOverride::IgnoreModLoader],
        vec![Tag::Dependencies],
    );
    assert!(fabric);
    assert!(m.enabled);
    assert_eq!(m.name, "Fabric API");
    assert_eq!(m.mod_version.as_deref(), Some("0.90.0"));
    assert_eq!(m.platform(), Platform::Modrinth);
    assert_eq!(m.base_path(), "/game/mods");
    assert_eq!(m.get_download_count(), 42);
    assert!(is_fabric_api("P7dR8mSH"));
    let cf = metadata(
        RawModData::Curseforge { data: curseforge_file(None), metadata: CurseforgeFileIndex { mod_loader: Some(CurseforgeModLoader::Forge) } },
        1,
        None,
    );
    assert!(cf.mod_version.is_none());
    assert_eq!(cf.platform(), Platform::Curseforge);
    assert_eq!(cf.get_download_count(), 7);
}

#[test]
fn newer_version_replaces_older_of_same_project() {
    let mut mm = manager(ModLoaderType::Fabric);
    let old = metadata(RawModData::Modrinth(modrinth_version("p", "1.2.0", Vec::new())), 50, None);
    match mm.offer_mod(old) {
        AddModStep::ResolveDependencies(m) => assert!(!mm.finish_new_mod(m, false)),
        other => panic!("unexpected {other:?}"),
    }
    assert_eq!(mm.mods.len(), 1);
    let newer = metadata(RawModData::Modrinth(modrinth_version("p", "1.10.0", Vec::new())), 10, None);
    assert_eq!(newer.compare(&mm.mods[0]), VersionOrder::Greater);
    assert!(matches!(mm.offer_mod(newer), AddModStep::Settled { replaced: true }));
    assert_eq!(mm.mods[0].mod_version.as_deref(), Some("1.10.0"));
    let older = metadata(RawModData::Modrinth(modrinth_version("p", "1.0.0", Vec::new())), 99, None);
    assert!(matches!(mm.offer_mod(older), AddModStep::Settled { replaced: false }));
    assert_eq!(mm.mods.len(), 1);
    assert_eq!(mm.mods[0].mod_version.as_deref(), Some("1.10.0"));
}

#[test]
fn mods_without_semver_compare_by_update_time() {
    let a = metadata(RawModData::Modrinth(modrinth_version("p", "build-7", Vec::new())), 5, None);
    let b = metadata(RawModData::Modrinth(modrinth_version("p", "1.0.0", Vec::new())), 9, None);
    assert_eq!(a.compare(&b), VersionOrder::Less);
    assert!(a < b);
    assert!(a == b);
}

#[test]
fn fabric_api_gives_way_to_qsl_on_quilt() {
    let mut mm = manager(ModLoaderType::Quilt);
    let m = metadata(RawModData::Modrinth(modrinth_version("P7dR8mSH", "1.0.0", Vec::new())), 0, None);
    assert!(mm.finish_new_mod(m, true));
    assert!(mm.mods.is_empty());
}

#[test]
fn dependency_requests_follow_required_dependencies() {
    let deps = vec![
        ModrinthDependency { version_id: Some(String::from("v1")), project_id: Some(String::from("p1")), dependency_type: DependencyType::Required },
        ModrinthDependency { version_id: None, project_id: Some(String::from("p2")), dependency_type: DependencyType::Required },
        ModrinthDependency { version_id: None, project_id: Some(String::from("p3")), dependency_type: DependencyType::Optional },
        ModrinthDependency { version_id: None, project_id: None, dependency_type: DependencyType::Required },
    ];
    let r = dependency_requests(&RawModData::Modrinth(modrinth_version("x", "1.0.0", deps)));
    assert_eq!(r.len(), 2);
    assert!(matches!(&r[0], DependencyRequest::ModrinthVersion(v) if v == "v1"));
    assert!(matches!(&r[1], DependencyRequest::ModrinthProject(p) if p == "p2"));
    let cf = RawModData::Curseforge { data: curseforge_file(None), metadata: CurseforgeFileIndex { mod_loader: None } };
    let r = dependency_requests(&cf);
    assert_eq!(r.len(), 1);
    assert!(matches!(r[0], DependencyRequest::CurseforgeMod(1)));
}

#[test]
fn curseforge_versions_pair_files_with_indexes() {
    let r = curseforge_versions(
        vec![curseforge_file(None), curseforge_file(Some("https://x/jei.jar"))],
        vec![CurseforgeFileIndex { mod_loader: Some(CurseforgeModLoader::Fabric) }],
    );
    assert_eq!(r.len(), 1);
    assert!(matches!(&r[0], RawModData::Curseforge { data, metadata } if data.download_url.is_none() && metadata.mod_loader == Some(CurseforgeModLoader::Fabric)));
}

#[test]
fn select_project_version_reports_no_fitting_version() {
    let mm = manager(ModLoaderType::Fabric);
    let all = vec![game("1.19.2"), game("1.20.1")];
    let v = vec![RawModData::Modrinth(modrinth_version("p", "1.0.0", Vec::new()))];
    assert!(matches!(mm.select_project_version("M", &all, v, &Vec::new()), Ok(RawModData::Modrinth(_))));
    let mut wrong = modrinth_version("p", "1.0.0", Vec::new());
    wrong.game_versions = vec![String::from("1.19.2")];
    match mm.select_project_version("M", &all, vec![RawModData::Modrinth(wrong)], &Vec::new()) {
        Err(ModError::ProjectModloaderLookup { mod_loader, project }) => {
            assert_eq!(mod_loader, ModLoaderType::Fabric);
            assert_eq!(project, "M");
        }
        other => panic!("unexpected {other:?}"),
    }
}

#[test]
fn download_targets_list_files_and_refuse_unshared_mods() {
    let mut mm = manager(ModLoaderType::Fabric);
    mm.mods.push(metadata(RawModData::Modrinth(modrinth_version("p", "1.0.0", Vec::new())), 0, None));
    mm.mods.push(metadata(
        RawModData::Curseforge { data: curseforge_file(Some("https://edge.forgecdn.net/jei.jar")), metadata: CurseforgeFileIndex { mod_loader: None } },
        0,
        None,
    ));
    let targets = mm.download_targets().unwrap();
    assert_eq!(targets.len(), 2);
    assert_eq!(targets[0].path, "/game/mods/a.jar");
    assert_eq!(targets[0].sha1s, vec![ABC_SHA1]);
    assert_eq!(targets[1].path, "/game/mods/jei.jar");
    assert_eq!(targets[1].size, 9);
    assert_eq!(targets[1].sha1s, vec![ABC_SHA1]);
    assert!(!target_needs_download(&targets[0], Some(b"abc")));
    assert!(target_needs_download(&targets[0], Some(b"abd")));
    assert!(target_needs_download(&targets[0], None));
    mm.mods.push(metadata(
        RawModData::Curseforge { data: curseforge_file(None), metadata: CurseforgeFileIndex { mod_loader: None } },
        0,
        None,
    ));
    match mm.download_targets() {
        Err(ModError::SharingDisabled { minecraft_mod }) => assert_eq!(minecraft_mod, "jei.jar"),
        other => panic!("unexpected {other:?}"),
    }
}

#[test]
fn icon_paths_name_project_and_file() {
    let mut mm = manager(ModLoaderType::Fabric);
    let m = metadata(RawModData::Modrinth(modrinth_version("AANobbMI", "1.0.0", Vec::new())), 0, Some("https://cdn.modrinth.com/data/AANobbMI/icon.png"));
    assert_eq!(m.get_icon_path().as_deref(), Some("/icons/AANobbMI_icon.png"));
    mm.mods.push(m);
    let icons = mm.icon_targets().unwrap();
    assert_eq!(icons.len(), 1);
    assert_eq!(icons[0].url, "https://cdn.modrinth.com/data/AANobbMI/icon.png");
    assert_eq!(icons[0].path, "/icons/AANobbMI_icon.png");
    mm.mods.push(metadata(RawModData::Modrinth(modrinth_version("q", "1.0.0", Vec::new())), 0, Some("data:abc")));
    assert!(mm.icon_targets().is_none());
}

#[test]
fn mod_is_downloaded_checks_every_file() {
    let m = metadata(RawModData::Modrinth(modrinth_version("p", "1.0.0", Vec::new())), 0, None);
    assert_eq!(m.file_checks().len(), 1);
    assert_eq!(m.file_checks()[0].path, "/game/mods/a.jar");
    assert!(m.mod_is_downloaded(&vec![Some(b"abc".to_vec())]));
    assert!(!m.mod_is_downloaded(&vec![Some(b"xyz".to_vec())]));
    assert!(!m.mod_is_downloaded(&vec![None]));
    let unshared = metadata(
        RawModData::Curseforge { data: curseforge_file(None), metadata: CurseforgeFileIndex { mod_loader: None } },
        0,
        None,
    );
    assert!(unshared.file_checks().is_empty());
    assert!(unshared.mod_is_downloaded(&Vec::new()));
}

#[test]
fn scanned_files_are_found_by_hash() {
    let mut mm = manager(ModLoaderType::Fabric);
    assert_eq!(file_hash_text(b"abc"), ABC_SHA1);
    assert!(!mm.contains_hash(ABC_SHA1));
    mm.mods.push(metadata(
        RawModData::Curseforge { data: curseforge_file(None), metadata: CurseforgeFileIndex { mod_loader: None } },
        0,
        None,
    ));
    assert!(mm.contains_hash(ABC_SHA1));
    assert!(!mm.contains_hash("ffff"));
    assert!(hashes_validate(b"abc", &vec![String::from("00"), String::from(ABC_SHA1)]));
    assert!(!hashes_validate(b"abc", &Vec::new()));
}

#[test]
fn game_versions_are_cached_once() {
    let mut mm = manager(ModLoaderType::Fabric);
    mm.cache_game_versions(vec![game("1.20.1")]);
    mm.cache_game_versions(vec![game("1.19.2"), game("1.18")]);
    assert_eq!(mm.cache.as_ref().unwrap().len(), 1);
    assert!(!mm.contains_mod(&metadata(RawModData::Modrinth(modrinth_version("p", "1", Vec::new())), 0, None)));
}

#[test]
fn updates_and_search_facets() {
    let m = metadata(RawModData::Modrinth(modrinth_version("p", "1.0.0", Vec::new())), 100, None);
    assert!(m.needs_update(101));
    assert!(!m.needs_update(100));
    let mm = manager(ModLoaderType::Quilt);
    let (category, version) = mm.search_facets();
    assert_eq!(category, "Quilt");
    assert_eq!(version, "1.20.1");
}

/// Adds `m` the way a whole add does: offer, then (for a new project) its
/// dependencies, then finish.
fn add_with(mm: &mut ModManager, m: ModMetadata, dependencies: Vec<ModMetadata>) {
    if let AddModStep::ResolveDependencies(new) = mm.offer_mod(m) {
        for d in dependencies {
            add_with(mm, d, Vec::new());
        }
        assert!(!mm.finish_new_mod(new, false));
    }
}

#[test]
fn whole_adds_keep_projects_distinct() {
    let mut mm = manager(ModLoaderType::Fabric);
    let lib = metadata(RawModData::Modrinth(modrinth_version("lib", "1.0.0", Vec::new())), 1, None);
    let app = metadata(RawModData::Modrinth(modrinth_version("app", "2.0.0", Vec::new())), 1, None);
    add_with(&mut mm, app, vec![lib]);
    let again_lib = metadata(RawModData::Modrinth(modrinth_version("lib", "1.1.0", Vec::new())), 1, None);
    let other = metadata(RawModData::Modrinth(modrinth_version("other", "1.0.0", Vec::new())), 1, None);
    add_with(&mut mm, other, vec![again_lib]);
    let ids: Vec<String> = mm.mods.iter().map(|m| m.project_id.to_string()).collect();
    assert_eq!(ids, vec!["lib", "app", "other"]);
    assert_eq!(mm.mods[0].mod_version.as_deref(), Some("1.1.0"));
}
