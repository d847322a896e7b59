use era_connect::collection::{
    collection_dir_name, duplicate_dir_name, AdvancedOptions, Collection, CollectionId, ModLoader,
    ModLoaderType,
};
use era_connect::native_collection;
use era_connect::storage::{
    collections_base_path, get_global_shared_path, load_with_default_step, storage_base_path,
    LoadStep, StorageLoader, COLLECTION_FILE_NAME, GLOBAL_SETTINGS_FILENAME,
};
use era_connect::version::{VersionMetadata, VersionType};

fn version() -> VersionMetadata {
    VersionMetadata {
        id: String::from("1.20.1"),
        version_type: VersionType::Release,
        url: String::from("https://example.com/1.20.1.json"),
        uploaded_time: 1,
        release_time: 2,
        sha1: String::from("00"),
        compliance_level: 1,
    }
}

#[test]
fn dir_names_drop_forbidden_characters() {
    assert_eq!(collection_dir_name("My: World?"), "My World");
    assert_eq!(collection_dir_name("a\\b/c*d\"e<f>g|h"), "abcdefgh");
    assert_eq!(collection_dir_name("con"), "con_");
    assert_eq!(collection_dir_name("LPT1"), "LPT1_");
    assert_eq!(collection_dir_name("console"), "console");
}

#[test]
fn empty_dir_names_become_random() {
    let name = collection_dir_name("???");
    assert_eq!(name.chars().count(), 5);
    assert!(name.chars().all(|c| c.is_ascii_alphanumeric()));
    let other = duplicate_dir_name("world");
    assert!(other.starts_with("world_"));
    assert_eq!(other.len(), 11);
    assert!(other[6..].chars().all(|c| c.is_ascii_alphanumeric()));
}

#[test]
fn collections_place_their_game_and_mods() {
    let c = Collection::create(
        String::from("World"),
        version(),
        Some(ModLoader::new(ModLoaderType::Fabric, Some(String::from("0.14.21")))),
        String::from("/pics/world.png"),
        Some(AdvancedOptions { jvm_max_memory: Some(4096) }),
        String::from("/data/collections/World"),
        1_700_000_000_000_000_000,
    );
    assert_eq!(c.game_directory(), "/data/collections/World/minecraft_root");
    assert_eq!(c.created_at(), c.updated_at());
    assert_eq!(c.played_time, 0);
    assert!(c.needs_download());
    assert_eq!(c.mod_loader().unwrap().to_string(), "Fabric");
    let manager = c.mod_manager().unwrap();
    assert_eq!(manager.game_directory, "/data/collections/World/minecraft_root");
    assert_eq!(manager.icon_directory, "/data/collections/World/mod_images");
    assert_eq!(manager.mods_directory(), "/data/collections/World/minecraft_root/mods");
    let vanilla = Collection::create(String::from("V"), version(), None, String::new(), None, String::from("/c/V"), 0);
    assert!(vanilla.mod_controller().is_none());
    assert_eq!(CollectionId(1234).to_string(), "1234");
    assert_eq!(ModLoaderType::NeoForge.name(), "NeoForge");
}

#[test]
fn storage_paths_live_in_the_data_directory() {
    let loader = StorageLoader::new(String::from(GLOBAL_SETTINGS_FILENAME), storage_base_path());
    assert_eq!(loader.get_storage_directory("/data/era-connect"), "/data/era-connect/storages");
    assert_eq!(loader.get_path_buf("/data/era-connect"), "/data/era-connect/storages/global_setings.json");
    let collection = StorageLoader::new(String::from(COLLECTION_FILE_NAME), String::from("/abs/World"));
    assert_eq!(collection.get_path_buf("/data"), "/abs/World/collection.json");
    assert_eq!(get_global_shared_path("/data"), "/data/shared");
    assert_eq!(collections_base_path("/data"), "/data/collections");
    assert_eq!(load_with_default_step(true), LoadStep::Read);
    assert_eq!(load_with_default_step(false), LoadStep::SaveDefault);
}

#[test]
fn native_collections_are_named_after_their_display_name() {
    let c = native_collection::Collection {
        display_name: String::from("World"),
        minecraft_version: String::from("1.20.1"),
        mod_loader: None,
        created_at: 0,
        updated_at: 0,
        played_time: 0,
        advanced_options: native_collection::AdvancedOptions {},
    };
    assert_eq!(c.get_path(), "collections/World");
    assert_eq!(native_collection::file_names(&vec![c]), vec!["World"]);
    assert_eq!(native_collection::base_path(), "collections");
}

#[test]
fn loaders_and_managers_change_in_place() {
    let mut c = Collection::create(
        String::from("World"),
        version(),
        Some(ModLoader::new(ModLoaderType::Fabric, Some(String::from("0.14.21")))),
        String::new(),
        None,
        String::from("/data/collections/World"),
        5,
    );
    if let Some(loader) = c.mod_loader_mut() {
        loader.mod_loader_type = ModLoaderType::Quilt;
    }
    assert_eq!(c.mod_loader().unwrap().to_string(), "Quilt");
    if let Some(manager) = c.mod_manager_mut() {
        manager.icon_directory = String::from("/icons");
    }
    assert_eq!(c.mod_manager().unwrap().icon_directory, "/icons");
    assert_eq!(c.display_name(), "World");
    let mut vanilla = Collection::create(String::from("V"), version(), None, String::new(), None, String::from("/c/V"), 0);
    assert!(vanilla.mod_loader_mut().is_none());
    assert!(vanilla.mod_manager_mut().is_none());
    assert_eq!(Collection::get_base_path("/data"), "/data/collections");
}
