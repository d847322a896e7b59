use era_connect::launcher::{
    add_jvm_rules, arguments_closed, game_args_parse, jvm_args_parse, launch_command,
    setup_jvm_flags, setup_jvm_options, Argument, ArgumentRuledValue, GameFlagsProcessed,
    GameOptions, LaunchArgs,
};
use era_connect::library::{Library, LibraryArtifact, Metadata};
use era_connect::rules::{ActionType, Os, OsName, Rule};

fn jvm_options() -> era_connect::launcher::JvmOptions {
    let mut o = setup_jvm_options(
        String::from("/v/client.jar"),
        String::from("/lib"),
        String::from("/game"),
        String::from("/natives"),
    );
    o.classpath = String::from("/lib/a.jar:/v/client.jar");
    o
}

fn game_options() -> GameOptions {
    GameOptions {
        auth_player_name: String::from("Steve"),
        game_version_name: String::from("1.20.1"),
        game_directory: String::from("/game"),
        assets_root: String::from("/assets"),
        assets_index_name: String::from("5"),
        auth_access_token: String::from("token"),
        auth_uuid: String::from("uuid"),
        user_type: String::from("mojang"),
        version_type: String::from("release"),
    }
}

fn library(path: Option<&str>, rules: Option<Vec<Rule>>) -> Library {
    Library {
        downloads: LibraryArtifact {
            artifact: Metadata {
                path: path.map(String::from),
                sha1: String::from("00"),
                size: 10,
                url: String::from("https://example.com/x.jar"),
            },
        },
        name: String::from("lib"),
        rules,
    }
}

#[test]
fn setup_jvm_options_names_the_launcher() {
    let o = setup_jvm_options(String::from("c.jar"), String::from("l"), String::from("g"), String::from("n"));
    assert_eq!(o.launcher_name, "era-connect");
    assert_eq!(o.launcher_version, "0.0.1");
    assert_eq!(o.classpath, "");
    assert_eq!(o.classpath_separator, ":");
    assert_eq!(o.primary_jar, "c.jar");
}

#[test]
fn jvm_args_parse_substitutes_known_variables() {
    let args = vec![
        String::from("-Djava.library.path=${natives_directory}"),
        String::from("-cp"),
        String::from("${classpath}"),
        String::from("${launcher_name}-${launcher_version}"),
        String::from("x${unknown}y"),
    ];
    assert!(arguments_closed(&args));
    let out = jvm_args_parse(&args, &jvm_options());
    assert_eq!(
        out,
        vec![
            "-Djava.library.path=/natives",
            "-cp",
            "/lib/a.jar:/v/client.jar",
            "era-connect-0.0.1",
            "xy",
        ]
    );
}

#[test]
fn game_args_parse_substitutes_game_variables() {
    let flags = GameFlagsProcessed {
        arguments: vec![
            String::from("--username"),
            String::from("${auth_player_name}"),
            String::from("--version"),
            String::from("${version_name}"),
            String::from("--gameDir"),
            String::from("${game_directory}"),
            String::from("--assetIndex"),
            String::from("${assets_index_name}"),
            String::from("plain text"),
        ],
    };
    let out = game_args_parse(&flags, &game_options());
    assert_eq!(
        out,
        vec!["--username", "Steve", "--version", "1.20.1", "--gameDir", "/game", "--assetIndex", "5", "plain text"]
    );
}

#[test]
fn arguments_closed_rejects_an_open_placeholder() {
    assert!(!arguments_closed(&[String::from("${abc")]));
    assert!(arguments_closed(&[String::from("$ {abc"), String::from("${a}")]));
}

#[test]
fn add_jvm_rules_builds_class_path_and_keeps_admitted_arguments() {
    let osx_allow = Rule { action: ActionType::Allow, os: Some(Os { name: Some(OsName::Osx), arch: None }) };
    let x86_allow = Rule { action: ActionType::Allow, os: Some(Os { name: None, arch: Some(String::from("x86")) }) };
    let libraries = vec![
        library(Some("a/a.jar"), None),
        library(Some("n/native.jar"), Some(vec![Rule {
            action: ActionType::Allow,
            os: Some(Os { name: Some(OsName::Linux), arch: None }),
        }])),
        library(None, None),
    ];
    let flags = setup_jvm_flags(vec![
        Argument::General(String::from("-Xss1M")),
        Argument::Ruled { rules: vec![osx_allow], value: ArgumentRuledValue::Single(String::from("-XstartOnFirstThread")) },
        Argument::Ruled {
            rules: vec![x86_allow],
            value: ArgumentRuledValue::Multiple(vec![String::from("-Xa"), String::from("-Xb")]),
        },
    ]);
    let options = setup_jvm_options(String::from("/v/c.jar"), String::from("/lib"), String::from("/g"), String::from("/n"));
    let (options, processed) = add_jvm_rules(&libraries, "/lib", "/v/c.jar", options, flags, OsName::Linux, "x86");
    assert_eq!(options.classpath, "/lib/a/a.jar:/lib:/v/c.jar");
    assert_eq!(processed.arguments, vec!["-Xss1M", "-Xa", "-Xb"]);
}

#[test]
fn launch_command_puts_main_class_between_argument_lists() {
    let args = LaunchArgs {
        jvm_args: vec![String::from("-Xmx2G"), String::from("-cp"), String::from("a.jar")],
        main_class: String::from("net.minecraft.client.main.Main"),
        game_args: vec![String::from("--demo")],
    };
    assert_eq!(
        launch_command(&args),
        vec!["-Xmx2G", "-cp", "a.jar", "net.minecraft.client.main.Main", "--demo"]
    );
}
