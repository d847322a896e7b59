use era_connect::collection::ModLoaderType;
use era_connect::mods::{
    fetch_version_modloader_constraints, loader_from_name, minor_game_check, CurseforgeFile,
    CurseforgeFileIndex, CurseforgeModLoader, ModError, ModOverride, ModrinthFile, ModrinthVersion,
    RawModData,
};
use era_connect::version::{VersionMetadata, VersionType};

fn game(id: &str, version_type: VersionType) -> VersionMetadata {
    VersionMetadata {
        id: String::from(id),
        version_type,
        url: String::new(),
        uploaded_time: 0,
        release_time: 0,
        sha1: String::new(),
        compliance_level: 0,
    }
}

fn file(name: &str, primary: bool) -> ModrinthFile {
    ModrinthFile {
        sha1: String::from("00"),
        url: format!("https://cdn.example.com/{name}"),
        filename: String::from(name),
        primary,
        size: 1,
    }
}

fn modrinth(number: &str, loader: &str, game_version: &str, date: i128) -> RawModData {
    RawModData::Modrinth(ModrinthVersion {
        project_id: String::from("proj"),
        version_number: String::from(number),
        loaders: vec![String::from(loader)],
        game_versions: vec![String::from(game_version)],
        date_published: date,
        downloads: 0,
        files: vec![file(&format!("{number}.jar"), true), file(&format!("{number}-sources.jar"), false)],
        dependencies: Vec::new(),
    })
}

fn versions() -> Vec<RawModData> {
    vec![
        modrinth("1.0.0", "fabric", "1.20.1", 100),
        modrinth("1.1.0", "fabric", "1.20.2", 200),
        modrinth("2.0.0", "forge", "1.20.1", 300),
    ]
}

fn all_games() -> Vec<VersionMetadata> {
    vec![
        game("1.20.1", VersionType::Release),
        game("1.20.2", VersionType::Release),
        game("23w33a", VersionType::Snapshot),
    ]
}

fn chosen_number(r: Result<Option<RawModData>, ModError>) -> Option<String> {
    match r.unwrap() {
        Some(RawModData::Modrinth(v)) => Some(v.version_number),
        Some(_) => panic!("unexpected platform"),
        None => None,
    }
}

#[test]
fn exact_game_version_is_chosen_with_primary_files_only() {
    let all = all_games();
    let r = fetch_version_modloader_constraints("m", &all, &all[0], ModLoaderType::Fabric, versions(), &Vec::new());
    match r.unwrap() {
        Some(RawModData::Modrinth(v)) => {
            assert_eq!(v.version_number, "1.0.0");
            assert_eq!(v.files.len(), 1);
            assert_eq!(v.files[0].filename, "1.0.0.jar");
        }
        _ => panic!("expected a Modrinth version"),
    }
}

#[test]
fn ignore_minor_prefers_exact_then_newest_of_same_minor() {
    let all = all_games();
    let overrides = vec![ModOverride::IgnoreMinorGameVersion];
    let r = fetch_version_modloader_constraints("m", &all, &all[0], ModLoaderType::Fabric, versions(), &overrides);
    assert_eq!(chosen_number(r), Some(String::from("1.0.0")));
    let only_newer = vec![modrinth("1.1.0", "fabric", "1.20.2", 200)];
    let r = fetch_version_modloader_constraints("m", &all, &all[0], ModLoaderType::Fabric, only_newer, &overrides);
    assert_eq!(chosen_number(r), Some(String::from("1.1.0")));
}

#[test]
fn ignore_all_takes_the_newest_for_the_loader() {
    let all = all_games();
    let overrides = vec![ModOverride::IgnoreAllGameVersion];
    let r = fetch_version_modloader_constraints("m", &all, &all[0], ModLoaderType::Fabric, versions(), &overrides);
    assert_eq!(chosen_number(r), Some(String::from("1.1.0")));
}

#[test]
fn ignore_minor_on_a_snapshot_acts_as_ignore_all() {
    let all = all_games();
    let minor = vec![ModOverride::IgnoreMinorGameVersion];
    let every = vec![ModOverride::IgnoreAllGameVersion];
    let a = fetch_version_modloader_constraints("m", &all, &all[2], ModLoaderType::Fabric, versions(), &minor);
    let b = fetch_version_modloader_constraints("m", &all, &all[2], ModLoaderType::Fabric, versions(), &every);
    let a = chosen_number(a);
    assert_eq!(a, Some(String::from("1.1.0")));
    assert_eq!(a, chosen_number(b));
}

#[test]
fn no_version_for_the_loader_is_an_error() {
    let all = all_games();
    match fetch_version_modloader_constraints("Sodium", &all, &all[0], ModLoaderType::Quilt, versions(), &Vec::new()) {
        Err(ModError::ProjectModloaderLookup { mod_loader, project }) => {
            assert_eq!(mod_loader, ModLoaderType::Quilt);
            assert_eq!(project, "Sodium");
        }
        other => panic!("unexpected {other:?}"),
    }
    let compat = vec![ModOverride::QuiltFabricCompatibility];
    let r = fetch_version_modloader_constraints("m", &all, &all[0], ModLoaderType::Quilt, versions(), &compat);
    assert_eq!(chosen_number(r), Some(String::from("1.0.0")));
}

#[test]
fn versions_for_the_loader_but_not_the_game_give_none() {
    let all = all_games();
    let r = fetch_version_modloader_constraints("m", &all, &all[2], ModLoaderType::Forge, versions(), &Vec::new());
    assert_eq!(chosen_number(r), None);
}

#[test]
fn neoforge_accepts_forge_and_curseforge_any() {
    let all = all_games();
    let r = fetch_version_modloader_constraints("m", &all, &all[0], ModLoaderType::NeoForge, versions(), &Vec::new());
    assert_eq!(chosen_number(r), Some(String::from("2.0.0")));
    let cf = vec![RawModData::Curseforge {
        data: CurseforgeFile {
            mod_id: 7,
            file_name: String::from("cf.jar"),
            download_url: None,
            hashes: Vec::new(),
            file_length: 5,
            game_versions: vec![String::from("1.20.1")],
            file_date: 1,
            download_count: 0,
            dependencies: Vec::new(),
        },
        metadata: CurseforgeFileIndex { mod_loader: Some(CurseforgeModLoader::Any) },
    }];
    let r = fetch_version_modloader_constraints("m", &all, &all[0], ModLoaderType::Quilt, cf, &Vec::new());
    assert!(matches!(r, Ok(Some(RawModData::Curseforge { .. }))));
}

#[test]
fn loader_names_and_minor_checks() {
    assert_eq!(loader_from_name("neoforge"), Some(ModLoaderType::NeoForge));
    assert_eq!(loader_from_name("rift"), None);
    assert!(minor_game_check(&game("1.20.4", VersionType::Release), "1.20.1"));
    assert!(!minor_game_check(&game("1.19.4", VersionType::Release), "1.20.1"));
    assert!(minor_game_check(&game("23w33a", VersionType::Snapshot), "23w33a"));
    assert!(!minor_game_check(&game("23w33a", VersionType::Snapshot), "1.20.1"));
}
