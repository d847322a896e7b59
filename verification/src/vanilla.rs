//! Preparing a vanilla game: where its files go, the options of its command
//! line, and the log configuration it is started with.
use vstd::prelude::*;

use crate::account::MinecraftAccount;
use crate::bindings::{hyphenated_uuid, uuid_text};
use crate::collection::AdvancedOptions;
use crate::download::{extract_filename, has_segments, last_segment, FileNameError};
use crate::bindings::url_path_of;
use crate::launcher::{
    all_closed, game_args_parse, game_table, Argument, GameFlagsProcessed, GameOptions, LaunchArgs,
    RawGameFlags,
};
use crate::modloader::ManifestProcessingError;
use crate::paths::{join_path, path_join};
use crate::template::{braces_closed, expand};
use crate::text::{decimal, decimal_text, views};

verus! {

/// The shared directories a vanilla game uses.
#[derive(Debug)]
pub struct VanillaLayout {
    pub asset_directory: String,
    pub library_directory: String,
    pub version_directory: String,
    pub native_directory: String,
}

/// The directory of the version `version_id` under the shared directory.
pub open spec fn version_directory_of(shared: Seq<char>, version_id: Seq<char>) -> Seq<char> {
    path_join(shared, "versions/"@ + version_id)
}

/// Lays out the shared directory for the version `version_id`: `assets`,
/// `libraries`, `versions/<id>`, and `natives` inside the version's directory.
pub fn vanilla_layout(shared_path: &str, version_id: &str) -> (r: VanillaLayout)
    ensures
        r.asset_directory@ == path_join(shared_path@, "assets"@),
        r.library_directory@ == path_join(shared_path@, "libraries"@),
        r.version_directory@ == version_directory_of(shared_path@, version_id@),
        r.native_directory@ == path_join(version_directory_of(shared_path@, version_id@), "natives"@),
{
    let mut rel = String::from_str("versions/");
    rel.append(version_id);
    let version_directory = join_path(shared_path, rel.as_str());
    let native_directory = join_path(version_directory.as_str(), "natives");
    VanillaLayout {
        asset_directory: join_path(shared_path, "assets"),
        library_directory: join_path(shared_path, "libraries"),
        version_directory,
        native_directory,
    }
}

/// Where the client jar is stored: in the version's directory, under the last
/// segment of its URL. Fails with `ExtractDownloadingFilename` when the URL
/// names no file (it does not parse, cannot be a base, or ends in `/`).
pub fn client_jar_path(version_directory: &str, client_url: &str) -> (r: Result<String, ManifestProcessingError>)
    ensures
        ({
            let p = url_path_of(client_url@);
            &&& (p is Some && has_segments(p->0) && last_segment(p->0).len() > 0) <==> r is Ok
            &&& r matches Ok(path) ==> path@ == path_join(version_directory@, last_segment(p->0))
            &&& r matches Err(e) ==> (e matches ManifestProcessingError::ExtractDownloadingFilename { str, .. } && str@ == client_url@)
        }),
{
    match extract_filename(client_url) {
        Ok(name) => Ok(join_path(version_directory, name.as_str())),
        Err(source) => Err(ManifestProcessingError::ExtractDownloadingFilename { source, str: client_url.to_owned() }),
    }
}

/// The JVM flag that caps the game's memory at `max_memory` MiB.
pub open spec fn memory_flag_text(max_memory: usize) -> Seq<char> {
    "-Xmx"@ + decimal(max_memory as nat) + "M"@
}

/// The JVM flag that caps the game's memory; see `memory_flag_text`.
pub fn memory_flag(max_memory: usize) -> (r: String)
    ensures
        r@ == memory_flag_text(max_memory),
{
    let mut out = String::from_str("-Xmx");
    let digits = decimal_text(max_memory as u64);
    out.append(digits.as_str());
    out.append("M");
    out
}

/// The log configuration text before the first game directory.
pub open spec fn log_head() -> Seq<char> {
    "\n            <Configuration status=\"WARN\">\n<Appenders>\n<Console name=\"SysOut\" target=\"SYSTEM_OUT\">\n<LegacyXMLLayout/>\n</Console>\n<RollingRandomAccessFile name=\"File\" fileName=\""@
}

/// The log configuration text between the two game directories.
pub open spec fn log_middle() -> Seq<char> {
    "/logs/latest.log\" filePattern=\""@
}

/// The log configuration text after the second game directory.
pub open spec fn log_tail() -> Seq<char> {
    "/logs/%d{yyyy-MM-dd}-%i.log.gz\">\n<PatternLayout pattern=\"[%d{HH:mm:ss}] [%t/%level]: %msg{nolookups}%n\"/>\n<Policies>\n<TimeBasedTriggeringPolicy/>\n<OnStartupTriggeringPolicy/>\n</Policies>\n</RollingRandomAccessFile>\n<Listener name=\"Tracy\">\n<PatternLayout pattern=\"(%F:%L): %msg{nolookups}%n\"/>\n</Listener>\n</Appenders>\n<Loggers>\n<Root level=\"info\">\n<filters>\n<MarkerFilter marker=\"NETWORK_PACKETS\" onMatch=\"DENY\" onMismatch=\"NEUTRAL\"/>\n</filters>\n<AppenderRef ref=\"SysOut\"/>\n<AppenderRef ref=\"File\"/>\n<AppenderRef ref=\"Tracy\"/>\n</Root>\n</Loggers>\n</Configuration>\n        "@
}

/// The log4j configuration the game is started with: console output in the
/// legacy XML layout the launcher reads, and log files in `logs` of the game
/// directory `path`.
pub open spec fn log_xml(path: Seq<char>) -> Seq<char> {
    log_head() + path + log_middle() + path + log_tail()
}

/// The log4j configuration for the game directory `path`; see `log_xml`.
pub fn build_log_xml(path: &str) -> (r: String)
    ensures
        r@ == log_xml(path@),
{
    let mut out = String::from_str("\n            <Configuration status=\"WARN\">\n<Appenders>\n<Console name=\"SysOut\" target=\"SYSTEM_OUT\">\n<LegacyXMLLayout/>\n</Console>\n<RollingRandomAccessFile name=\"File\" fileName=\"");
    out.append(path);
    out.append("/logs/latest.log\" filePattern=\"");
    out.append(path);
    out.append("/logs/%d{yyyy-MM-dd}-%i.log.gz\">\n<PatternLayout pattern=\"[%d{HH:mm:ss}] [%t/%level]: %msg{nolookups}%n\"/>\n<Policies>\n<TimeBasedTriggeringPolicy/>\n<OnStartupTriggeringPolicy/>\n</Policies>\n</RollingRandomAccessFile>\n<Listener name=\"Tracy\">\n<PatternLayout pattern=\"(%F:%L): %msg{nolookups}%n\"/>\n</Listener>\n</Appenders>\n<Loggers>\n<Root level=\"info\">\n<filters>\n<MarkerFilter marker=\"NETWORK_PACKETS\" onMatch=\"DENY\" onMismatch=\"NEUTRAL\"/>\n</filters>\n<AppenderRef ref=\"SysOut\"/>\n<AppenderRef ref=\"File\"/>\n<AppenderRef ref=\"Tracy\"/>\n</Root>\n</Loggers>\n</Configuration>\n        ");
    out
}

/// The JVM flag that points log4j at the configuration file `path`.
pub open spec fn log_flag_text(path: Seq<char>) -> Seq<char> {
    "-Dlog4j.configurationFile="@ + path
}

/// Where the log configuration of a version is written: `log4j2.xml` in its directory.
pub fn log_config_path(version_directory: &str) -> (r: String)
    ensures
        r@ == path_join(version_directory@, "log4j2.xml"@),
{
    join_path(version_directory, "log4j2.xml")
}

/// The JVM flags that follow the manifest's: the memory cap when the
/// collection sets one.
pub open spec fn advanced_flags(advanced_options: Option<AdvancedOptions>) -> Seq<Seq<char>> {
    match advanced_options {
        Some(o) => match o.jvm_max_memory {
            Some(m) => seq![memory_flag_text(m)],
            None => Seq::empty(),
        },
        None => Seq::empty(),
    }
}

/// The command line of a vanilla game: the expanded JVM arguments, the memory
/// cap when set, the log configuration flag for `log_config`; then the main
/// class and the game arguments.
pub fn finish_launch_args(
    jvm_arguments: Vec<String>,
    advanced_options: Option<AdvancedOptions>,
    log_config: &str,
    main_class: String,
    game_arguments: Vec<String>,
) -> (r: LaunchArgs)
    ensures
        views(r.jvm_args@) == views(jvm_arguments@) + advanced_flags(advanced_options) + seq![log_flag_text(log_config@)],
        r.main_class == main_class,
        r.game_args == game_arguments,
{
    let mut jvm_args = jvm_arguments;
    let ghost start = views(jvm_args@);
    match advanced_options {
        Some(o) => match o.jvm_max_memory {
            Some(m) => {
                let flag = memory_flag(m);
                jvm_args.push(flag);
                assert(views(jvm_args@) =~= start + seq![memory_flag_text(m)]);
            },
            None => {
                assert(views(jvm_args@) =~= start + Seq::<Seq<char>>::empty());
            },
        },
        None => {
            assert(views(jvm_args@) =~= start + Seq::<Seq<char>>::empty());
        },
    }
    let ghost mid = views(jvm_args@);
    let mut flag = String::from_str("-Dlog4j.configurationFile=");
    flag.append(log_config);
    jvm_args.push(flag);
    assert(views(jvm_args@) =~= mid + seq![log_flag_text(log_config@)]);
    LaunchArgs { jvm_args, main_class, game_args: game_arguments }
}

/// Why the game options could not be set up.
#[derive(Debug)]
pub enum GameOptionError {
    /// No account is set as the main one.
    NoMainAccount,
}

/// The text a game argument contributes before expansion: a plain argument's
/// text; a guarded one contributes empty text, as its rules are not checked.
pub open spec fn game_argument_text(a: Argument) -> Seq<char> {
    match a {
        Argument::General(x) => x@,
        _ => Seq::empty(),
    }
}

/// Every plain game argument has its `${` closed.
pub open spec fn game_arguments_closed(args: Seq<Argument>) -> bool {
    forall|i: int| 0 <= i < args.len() ==> braces_closed(#[trigger] game_argument_text(args[i]))
}

/// `k` is the position of the first account with UUID `uuid`.
pub open spec fn is_first_account(accounts: Seq<MinecraftAccount>, uuid: u128, k: int) -> bool {
    &&& 0 <= k < accounts.len()
    &&& accounts[k].uuid == uuid
    &&& forall|j: int| 0 <= j < k ==> (#[trigger] accounts[j]).uuid != uuid
}

/// Position of the first account with UUID `uuid`.
fn find_account(accounts: &Vec<MinecraftAccount>, uuid: u128) -> (r: Option<usize>)
    ensures
        match r {
            Some(k) => is_first_account(accounts@, uuid, k as int),
            None => forall|j: int| 0 <= j < accounts@.len() ==> (#[trigger] accounts@[j]).uuid != uuid,
        },
{
    let mut k: usize = 0;
    while k < accounts.len()
        invariant
            k <= accounts@.len(),
            forall|j: int| 0 <= j < k ==> (#[trigger] accounts@[j]).uuid != uuid,
        decreases accounts@.len() - k,
    {
        if accounts[k].uuid == uuid {
            return Some(k);
        }
        k = k + 1;
    }
    None
}

/// The game options for playing version `current_version` with the main
/// account, whose UUID `main_account` gives and which must be among
/// `accounts` (the first one with that UUID is used), and the game arguments
/// expanded with them. The directories are given in canonical form. Fails
/// with `NoMainAccount` when no account is the main one.
pub fn setup_game_option(
    current_version: String,
    game_directory: String,
    asset_directory: String,
    asset_index_id: String,
    game_flags: RawGameFlags,
    main_account: Option<u128>,
    accounts: &Vec<MinecraftAccount>,
) -> (r: Result<(GameOptions, GameFlagsProcessed), GameOptionError>)
    requires
        main_account matches Some(u) ==> exists|k: int| 0 <= k < accounts@.len() && (#[trigger] accounts@[k]).uuid == u,
        main_account is Some ==> game_arguments_closed(game_flags.arguments@),
    ensures
        main_account is None ==> r matches Err(GameOptionError::NoMainAccount),
        main_account matches Some(u) ==> forall|k: int| #[trigger] is_first_account(accounts@, u, k) ==> (r matches Ok((o, f)) && {
            let a = accounts@[k];
            &&& o.auth_player_name == a.username
            &&& o.game_version_name == current_version
            &&& o.game_directory == game_directory
            &&& o.assets_root == asset_directory
            &&& o.assets_index_name == asset_index_id
            &&& o.auth_access_token == a.access_token.token
            &&& o.auth_uuid@ == hyphenated_uuid(u)
            &&& o.user_type@ == "mojang"@
            &&& o.version_type@ == "release"@
            &&& f.arguments@.len() == game_flags.arguments@.len()
            &&& forall|i: int| 0 <= i < f.arguments@.len() ==> #[trigger] f.arguments@[i]@ == expand(game_argument_text(game_flags.arguments@[i]), game_table(o))
        }),
{
    let uuid = match main_account {
        None => {
            return Err(GameOptionError::NoMainAccount);
        },
        Some(u) => u,
    };
    let k = match find_account(accounts, uuid) {
        Some(k) => k,
        None => {
            proof {
                let q = choose|q: int| 0 <= q < accounts@.len() && (#[trigger] accounts@[q]).uuid == uuid;
                assert(accounts@[q].uuid != uuid);
            }
            return Err(GameOptionError::NoMainAccount);
        },
    };
    proof {
        assert forall|q: int| #[trigger] is_first_account(accounts@, uuid, q) implies q == k by {
            if q < k {
                assert(accounts@[q].uuid != uuid);
            }
            if q > k {
                assert(accounts@[k as int].uuid != uuid);
            }
        }
    }
    let account = &accounts[k];
    let game_options = GameOptions {
        auth_player_name: account.username.clone(),
        game_version_name: current_version,
        game_directory,
        assets_root: asset_directory,
        assets_index_name: asset_index_id,
        auth_access_token: account.access_token.token.clone(),
        auth_uuid: uuid_text(uuid),
        user_type: String::from_str("mojang"),
        version_type: String::from_str("release"),
    };
    let mut texts: Vec<String> = Vec::new();
    let mut i: usize = 0;
    while i < game_flags.arguments.len()
        invariant
            i <= game_flags.arguments@.len(),
            game_arguments_closed(game_flags.arguments@),
            texts@.len() == i,
            forall|j: int| 0 <= j < i ==> #[trigger] texts@[j]@ == game_argument_text(game_flags.arguments@[j]),
        decreases game_flags.arguments@.len() - i,
    {
        let t = match &game_flags.arguments[i] {
            Argument::General(x) => x.clone(),
            _ => String::new(),
        };
        texts.push(t);
        i = i + 1;
    }
    assert(all_closed(texts@)) by {
        assert forall|j: int| 0 <= j < texts@.len() implies braces_closed(#[trigger] texts@[j]@) by {
            assert(braces_closed(game_argument_text(game_flags.arguments@[j])));
        }
    }
    let flags = GameFlagsProcessed { arguments: texts };
    let parsed = game_args_parse(&flags, &game_options);
    Ok((game_options, GameFlagsProcessed { arguments: parsed }))
}

} // verus!
