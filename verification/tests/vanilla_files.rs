use era_connect::account::{
    assemble_account, data_dir, get_skin_file_path, identity_token, rps_ticket, xbox_user_hash, AccountToken,
    LoginFlowError, MinecraftAccount, MinecraftSkin, MinecraftSkinVariant, MinecraftUserProfile,
    XstsTokenErrorType,
};
use era_connect::assets::{
    asset_index_path, asset_path_of, asset_url_of, extract_assets, total_to_fetch, AssetEntry,
    AssetIndex,
};
use era_connect::collection::AdvancedOptions;
use era_connect::launcher::{Argument, ArgumentRuledValue, RawGameFlags};
use era_connect::modloader::ManifestProcessingError;
use era_connect::vanilla::{
    build_log_xml, client_jar_path, finish_launch_args, log_config_path, memory_flag,
    setup_game_option, vanilla_layout, GameOptionError,
};

const SKIN_ID: u128 = 0xa1a2a3a4b1b2c1c2d1d2d3d4d5d6d7d8;

fn account(uuid: u128, name: &str) -> MinecraftAccount {
    MinecraftAccount {
        username: String::from(name),
        uuid,
        access_token: AccountToken { token: format!("token-{name}"), expires_at: 10 },
        refresh_token: AccountToken { token: String::from("refresh"), expires_at: 20 },
        skins: Vec::new(),
        capes: Vec::new(),
    }
}

#[test]
fn asset_objects_are_fetched_by_hash() {
    let hash = "bdf48ef6b5d0d23bbb02e17d04865216179f510a";
    assert_eq!(asset_url_of(hash), "https://resources.download.minecraft.net/bd/bdf48ef6b5d0d23bbb02e17d04865216179f510a");
    assert_eq!(asset_path_of("/assets", hash), "/assets/objects/bd/bdf48ef6b5d0d23bbb02e17d04865216179f510a");
    assert_eq!(asset_url_of("a"), "https://resources.download.minecraft.net/a/a");
    let index = AssetIndex { url: String::new(), id: String::from("5"), sha1: String::new(), size: 0, total_size: 0 };
    assert_eq!(asset_index_path("/assets", &index), "/assets/indexes/5.json");
}

#[test]
fn extract_assets_lists_objects_in_order() {
    let entries = vec![
        AssetEntry { size: Some(10), hash: Some(String::from("aabb")) },
        AssetEntry { size: Some(20), hash: Some(String::from("ccdd")) },
    ];
    let s = extract_assets(Some(entries), "/a").unwrap();
    assert_eq!(s.asset_download_list, vec!["https://resources.download.minecraft.net/aa/aabb", "https://resources.download.minecraft.net/cc/ccdd"]);
    assert_eq!(s.asset_download_hash, vec!["aabb", "ccdd"]);
    assert_eq!(s.asset_download_path, vec!["/a/objects/aa/aabb", "/a/objects/cc/ccdd"]);
    assert_eq!(s.asset_download_size, vec![10, 20]);
}

#[test]
fn extract_assets_names_the_missing_field() {
    assert!(matches!(extract_assets(None, "/a"), Err(ManifestProcessingError::ManifestLookUp { ref key }) if key == "asset_index_contet[objects]"));
    let no_size = vec![AssetEntry { size: None, hash: Some(String::from("aa")) }];
    assert!(matches!(extract_assets(Some(no_size), "/a"), Err(ManifestProcessingError::ManifestLookUp { ref key }) if key == "asset_objects[_][size]"));
    let no_hash = vec![
        AssetEntry { size: Some(1), hash: Some(String::from("aa")) },
        AssetEntry { size: Some(1), hash: None },
    ];
    assert!(matches!(extract_assets(Some(no_hash), "/a"), Err(ManifestProcessingError::ManifestLookUp { ref key }) if key == "asset_objects[_][hash]"));
}

#[test]
fn total_to_fetch_adds_the_chosen_sizes() {
    assert_eq!(total_to_fetch(&vec![10, 20, 30], &vec![true, false, true]), 40);
    assert_eq!(total_to_fetch(&vec![usize::MAX, 2], &vec![true, true]), 1);
}

#[test]
fn vanilla_layout_places_shared_directories() {
    let l = vanilla_layout("/data/shared", "1.20.1");
    assert_eq!(l.asset_directory, "/data/shared/assets");
    assert_eq!(l.library_directory, "/data/shared/libraries");
    assert_eq!(l.version_directory, "/data/shared/versions/1.20.1");
    assert_eq!(l.native_directory, "/data/shared/versions/1.20.1/natives");
    assert_eq!(log_config_path(&l.version_directory), "/data/shared/versions/1.20.1/log4j2.xml");
}

#[test]
fn client_jar_is_named_after_its_url() {
    assert_eq!(client_jar_path("/v", "https://piston-data.mojang.com/v1/objects/0c3e/client.jar").unwrap(), "/v/client.jar");
    assert!(matches!(client_jar_path("/v", "nope"), Err(ManifestProcessingError::ExtractDownloadingFilename { ref str, .. }) if str == "nope"));
    assert!(matches!(client_jar_path("/v", "https://example.com/v1/"), Err(ManifestProcessingError::ExtractDownloadingFilename { .. })));
}

#[test]
fn launch_args_get_memory_and_log_flags() {
    assert_eq!(memory_flag(2048), "-Xmx2048M");
    let args = finish_launch_args(
        vec![String::from("-cp"), String::from("a.jar")],
        Some(AdvancedOptions { jvm_max_memory: Some(4096) }),
        "/v/log4j2.xml",
        String::from("Main"),
        vec![String::from("--demo")],
    );
    assert_eq!(args.jvm_args, vec!["-cp", "a.jar", "-Xmx4096M", "-Dlog4j.configurationFile=/v/log4j2.xml"]);
    assert_eq!(args.main_class, "Main");
    let plain = finish_launch_args(Vec::new(), Some(AdvancedOptions { jvm_max_memory: None }), "x", String::new(), Vec::new());
    assert_eq!(plain.jvm_args, vec!["-Dlog4j.configurationFile=x"]);
}

#[test]
fn log_xml_points_at_the_game_directory() {
    let xml = build_log_xml("/game");
    assert!(xml.contains("fileName=\"/game/logs/latest.log\""));
    assert!(xml.contains("filePattern=\"/game/logs/%d{yyyy-MM-dd}-%i.log.gz\""));
    assert!(xml.contains("<LegacyXMLLayout/>"));
    assert!(xml.trim_end().ends_with("</Configuration>"));
}

#[test]
fn game_options_use_the_main_account() {
    let accounts = vec![account(1, "Alex"), account(SKIN_ID, "Steve")];
    let flags = RawGameFlags {
        arguments: vec![
            Argument::General(String::from("--username")),
            Argument::General(String::from("${auth_player_name}")),
            Argument::General(String::from("--uuid")),
            Argument::General(String::from("${auth_uuid}")),
            Argument::Ruled { rules: Vec::new(), value: ArgumentRuledValue::Single(String::from("--demo")) },
        ],
    };
    let (options, processed) = setup_game_option(
        String::from("1.20.1"),
        String::from("/game"),
        String::from("/assets"),
        String::from("5"),
        flags,
        Some(SKIN_ID),
        &accounts,
    )
    .unwrap();
    assert_eq!(options.auth_player_name, "Steve");
    assert_eq!(options.auth_access_token, "token-Steve");
    assert_eq!(options.user_type, "mojang");
    assert_eq!(options.version_type, "release");
    assert_eq!(processed.arguments, vec!["--username", "Steve", "--uuid", "a1a2a3a4-b1b2-c1c2-d1d2-d3d4d5d6d7d8", ""]);
    let none = setup_game_option(String::new(), String::new(), String::new(), String::new(), RawGameFlags { arguments: Vec::new() }, None, &accounts);
    assert!(matches!(none, Err(GameOptionError::NoMainAccount)));
    let unclosed = RawGameFlags { arguments: vec![Argument::General(String::from("${auth_player_name"))] };
    let none = setup_game_option(String::new(), String::new(), String::new(), String::new(), unclosed, None, &accounts);
    assert!(matches!(none, Err(GameOptionError::NoMainAccount)));
}

#[test]
fn skins_live_under_their_uuid() {
    let skin = MinecraftSkin { id: SKIN_ID, state: String::from("ACTIVE"), url: String::new(), variant: MinecraftSkinVariant::Classic };
    let dir = data_dir("/home/u/.local/share");
    assert_eq!(dir, "/home/u/.local/share/era-connect");
    assert_eq!(skin.get_skin_directory(&dir), "/home/u/.local/share/era-connect/skins/a1a2a3a4-b1b2-c1c2-d1d2-d3d4d5d6d7d8");
    assert_eq!(skin.get_head_file_path(&dir), "/home/u/.local/share/era-connect/skins/a1a2a3a4-b1b2-c1c2-d1d2-d3d4d5d6d7d8/head.png");
    assert_eq!(skin.get_raw_file_path(&dir), "/home/u/.local/share/era-connect/skins/a1a2a3a4-b1b2-c1c2-d1d2-d3d4d5d6d7d8/raw.png");
    assert_eq!(get_skin_file_path(skin, &dir), "/home/u/.local/share/era-connect/skins/a1a2a3a4-b1b2-c1c2-d1d2-d3d4d5d6d7d8/head.png");
}

#[test]
fn login_texts_and_account() {
    assert_eq!(rps_ticket("abc"), "d=abc");
    assert_eq!(identity_token("uhs1", "xsts"), "XBL3.0 x=uhs1;xsts");
    assert_eq!(xbox_user_hash(&vec![String::from("h1"), String::from("h2")]).unwrap(), "h1");
    assert!(matches!(xbox_user_hash(&Vec::new()), Err(LoginFlowError::MissingXboxLiveUserHash)));
    assert_eq!(XstsTokenErrorType::ChildAccount.code(), 2_148_916_238);
    assert_eq!(XstsTokenErrorType::from_code(2_148_916_235), Some(XstsTokenErrorType::CountryNotAvailable));
    assert_eq!(XstsTokenErrorType::from_code(1), None);
    let profile = MinecraftUserProfile { id: 9, name: String::from("Steve"), skins: Vec::new(), capes: Vec::new() };
    let a = assemble_account(profile, String::from("mc"), 100, String::from("ms"), 200);
    assert_eq!(a.username, "Steve");
    assert_eq!(a.uuid, 9);
    assert_eq!(a.access_token.token, "mc");
    assert_eq!(a.refresh_token.expires_at, 200);
}
