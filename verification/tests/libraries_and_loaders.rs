use era_connect::collection::ModLoaderType;
use era_connect::launcher::LaunchArgs;
use era_connect::library::{
    library_action, library_plans, native_entry_target, os_match, os_name_of, DetectedOs, Library,
    LibraryArtifact, Metadata, NativeEntry,
};
use era_connect::modloader::{
    artifact_step, convert_maven_to_path, merge_classpath, modloader_library_plans,
    select_loader_url, substitute_library_names, Loaders, ManifestProcessingError,
    ModloaderLibrary, ModloaderLibraryArtifact, ModloaderLibraryDownloadMetadata,
    ModloaderLibraryPlan, ModloaderVersion, ModloaderVersionsManifest,
};
use era_connect::native_library;
use era_connect::rules::{ActionType, Os, OsName, Rule};

const ABC_SHA1: &str = "a9993e364706816aba3e25717850c26c9cd0d89d";

fn lib(path: Option<&str>, rules: Option<Vec<Rule>>) -> Library {
    Library {
        downloads: LibraryArtifact {
            artifact: Metadata {
                path: path.map(String::from),
                sha1: String::from(ABC_SHA1),
                size: 3,
                url: String::from("https://libraries.minecraft.net/x.jar"),
            },
        },
        name: String::from("x"),
        rules,
    }
}

fn rule(action: ActionType, os: OsName) -> Rule {
    Rule { action, os: Some(Os { name: Some(os), arch: None }) }
}

#[test]
fn os_match_classifies_natives() {
    let plain = lib(Some("a.jar"), None);
    assert_eq!(os_match(&plain, OsName::Linux), (false, false, ""));
    let native = lib(Some("n.jar"), Some(vec![rule(ActionType::Allow, OsName::Linux), rule(ActionType::Disallow, OsName::Osx)]));
    assert_eq!(os_match(&native, OsName::Linux), (true, true, ".so"));
    assert_eq!(os_match(&native, OsName::Windows), (false, true, ".dll"));
    assert_eq!(os_name_of(DetectedOs::MacOS), Some(OsName::Osx));
    assert_eq!(os_name_of(DetectedOs::Other), None);
}

#[test]
fn library_plans_skip_libraries_without_path() {
    let libs = vec![lib(Some("a/a.jar"), None), lib(None, None), lib(Some("n.jar"), Some(vec![rule(ActionType::Allow, OsName::Linux)]))];
    let plans = library_plans(&libs, "/lib", OsName::Linux);
    assert_eq!(plans.len(), 2);
    assert_eq!(plans[0].path, "/lib/a/a.jar");
    assert!(!plans[0].is_native);
    assert!(plans[1].process_native);
    assert_eq!(plans[1].extension, ".so");
    let a = library_action(&plans[0], true, Some(b"abc"));
    assert!(!a.fetch && !a.counted && !a.unpack_native);
    let b = library_action(&plans[0], true, Some(b"abd"));
    assert!(b.fetch && b.counted);
    let c = library_action(&plans[0], false, None);
    assert!(c.fetch && c.counted);
    let d = library_action(&plans[1], true, None);
    assert!(!d.fetch && d.unpack_native && d.counted);
}

#[test]
fn native_entries_move_by_file_name() {
    assert!(matches!(native_entry_target("/n", "linux/x64/liblwjgl.so", ".so"), NativeEntry::MoveTo(ref p) if p == "/n/liblwjgl.so"));
    assert!(matches!(native_entry_target("/n", "liblwjgl.so.sha1", ".so"), NativeEntry::MoveTo(ref p) if p == "/n/liblwjgl.so.sha1"));
    assert!(matches!(native_entry_target("/n", "META-INF/MANIFEST.MF", ".so"), NativeEntry::Skip));
    assert!(matches!(native_entry_target("/n", ".git/x.so", ".so"), NativeEntry::Skip));
    assert!(matches!(native_entry_target("/n", "x.so/..", ".so"), NativeEntry::NoFileName));
}

#[test]
fn native_front_end_plans_libraries() {
    let l = native_library::Library {
        downloads: native_library::LibraryArtifact {
            artifact: native_library::LibraryMetadata {
                path: String::from("a/b.jar"),
                sha1: String::from(ABC_SHA1),
                size: 3,
                url: String::from("u"),
            },
        },
        name: String::from("b"),
        rules: None,
    };
    let plan = native_library::native_library_plan(&l, "/lib", &native_library::OsName::Linux);
    assert_eq!(plan.path, "/lib/a/b.jar");
    assert_eq!(native_library::native_library_step(&plan, true, Some(b"abc")), native_library::NativeLibraryStep::Keep);
    assert_eq!(native_library::native_library_step(&plan, false, None), native_library::NativeLibraryStep::Fetch);
    assert_eq!(native_library::native_os_name_of(DetectedOs::Windows), Some(native_library::OsName::Windows));
}

fn manifest() -> ModloaderVersionsManifest {
    ModloaderVersionsManifest {
        game_versions: vec![
            ModloaderVersion {
                id: String::from("${modrinth.gameVersion}"),
                stable: true,
                loaders: vec![
                    Loaders { id: String::from("0.14.21"), url: String::from("https://meta/0.14.21.json"), stable: true },
                    Loaders { id: String::from("0.14.20"), url: String::from("https://meta/0.14.20.json"), stable: true },
                ],
            },
            ModloaderVersion { id: String::from("1.20.1"), stable: true, loaders: Vec::new() },
        ],
    }
}

#[test]
fn loader_urls_are_found_per_loader_rules() {
    let m = manifest();
    assert_eq!(select_loader_url(&m, ModLoaderType::Quilt, "1.20.1", None).unwrap(), "https://meta/0.14.21.json");
    assert_eq!(select_loader_url(&m, ModLoaderType::Fabric, "1.20.1", Some("0.14.20")).unwrap(), "https://meta/0.14.20.json");
    match select_loader_url(&m, ModLoaderType::Fabric, "1.20.1", Some("9.9")) {
        Err(ManifestProcessingError::NoManifest { modloader_type }) => assert_eq!(modloader_type, ModLoaderType::Fabric),
        other => panic!("unexpected {other:?}"),
    }
    match select_loader_url(&m, ModLoaderType::Forge, "1.20.1", None) {
        Err(ManifestProcessingError::NoManifest { modloader_type }) => assert_eq!(modloader_type, ModLoaderType::Forge),
        other => panic!("unexpected {other:?}"),
    }
    match select_loader_url(&m, ModLoaderType::NeoForge, "1.19", None) {
        Err(ManifestProcessingError::GameVersionNotExist { desired }) => assert_eq!(desired, "1.19"),
        other => panic!("unexpected {other:?}"),
    }
}

fn modloader_lib(name: &str, download: Option<&str>, url: Option<&str>, cp: bool) -> ModloaderLibrary {
    ModloaderLibrary {
        downloads: download.map(|p| ModloaderLibraryDownloadMetadata {
            artifact: ModloaderLibraryArtifact {
                path: String::from(p),
                sha1: String::from(ABC_SHA1),
                size: 3,
                url: format!("https://maven.example/{p}"),
            },
        }),
        name: String::from(name),
        url: url.map(String::from),
        include_in_classpath: cp,
    }
}

#[test]
fn library_names_get_the_game_version_on_quilt() {
    let mut libs = vec![modloader_lib("net.fabricmc:intermediary:${modrinth.gameVersion}", None, None, true)];
    substitute_library_names(&mut libs, ModLoaderType::Quilt, "1.20.1");
    assert_eq!(libs[0].name, "net.fabricmc:intermediary:1.20.1");
    let mut forge = vec![modloader_lib("a:b:${modrinth.gameVersion}", None, None, true)];
    substitute_library_names(&mut forge, ModLoaderType::Forge, "1.20.1");
    assert_eq!(forge[0].name, "a:b:${modrinth.gameVersion}");
}

#[test]
fn maven_names_become_repository_paths() {
    assert_eq!(convert_maven_to_path("net.fabricmc:fabric-loader:0.14.21").as_deref(), Some("net/fabricmc/fabric-loader/0.14.21/fabric-loader-0.14.21.jar"));
    assert_eq!(convert_maven_to_path("a.b:c:1:natives-linux").as_deref(), Some("a/b/c/1/c-1-natives-linux.jar"));
    assert_eq!(convert_maven_to_path("a:c:1@zip").as_deref(), Some("a/c/1/c-1.zip"));
    assert_eq!(convert_maven_to_path("a:c"), None);
}

#[test]
fn modloader_libraries_are_planned_and_put_on_the_class_path() {
    let libs = vec![
        modloader_lib("x:y:1", Some("x/y/1/y-1.jar"), None, true),
        modloader_lib("net.fabricmc:intermediary:1.20.1", None, Some("https://maven.fabricmc.net/"), false),
    ];
    let (plans, classpath) = modloader_library_plans(&libs, "/lib").unwrap();
    assert_eq!(plans.len(), 2);
    assert!(matches!(&plans[0], ModloaderLibraryPlan::Artifact { path, size: 3, .. } if path == "/lib/x/y/1/y-1.jar"));
    assert!(matches!(&plans[1], ModloaderLibraryPlan::Maven { path, url }
        if path == "/lib/net/fabricmc/intermediary/1.20.1/intermediary-1.20.1.jar"
        && url == "https://maven.fabricmc.net/net/fabricmc/intermediary/1.20.1/intermediary-1.20.1.jar"));
    assert_eq!(classpath, vec!["/lib/x/y/1/y-1.jar"]);
    let bad = vec![modloader_lib("nocolons", None, Some("u"), true)];
    assert!(matches!(modloader_library_plans(&bad, "/lib"), Err(ManifestProcessingError::MavenPathTranslation { ref str }) if str == "nocolons"));
    let no_url = vec![modloader_lib("a:b:1", None, None, true)];
    assert!(matches!(modloader_library_plans(&no_url, "/lib"), Err(ManifestProcessingError::LibraryUrlNotExist)));
    let step = artifact_step(None, ABC_SHA1);
    assert!(step.fetch && step.count);
    let step = artifact_step(Some(b"abd"), ABC_SHA1);
    assert!(step.fetch && !step.count);
}

#[test]
fn class_path_is_merged_without_duplicates() {
    let mut args = LaunchArgs {
        jvm_args: vec![String::from("-Xss1M"), String::from("-cp"), String::from("a.jar:b.jar"), String::from("-cp"), String::from("z")],
        main_class: String::from("Main"),
        game_args: Vec::new(),
    };
    merge_classpath(&mut args, &vec![String::from("b.jar"), String::from("c.jar"), String::from("c.jar")]).unwrap();
    let mut parts: Vec<&str> = args.jvm_args[2].split(':').collect();
    parts.sort();
    assert_eq!(parts, vec!["a.jar", "b.jar", "c.jar"]);
    assert_eq!(args.jvm_args[4], "z");
    let mut open = LaunchArgs { jvm_args: vec![String::from("-cp")], main_class: String::new(), game_args: Vec::new() };
    assert!(matches!(merge_classpath(&mut open, &Vec::new()), Err(ManifestProcessingError::NoClassPath)));
    let mut none = LaunchArgs { jvm_args: vec![String::from("x")], main_class: String::new(), game_args: Vec::new() };
    assert!(merge_classpath(&mut none, &vec![String::from("c.jar")]).is_ok());
    assert_eq!(none.jvm_args, vec!["x"]);
}
