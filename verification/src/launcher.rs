//! Building the command line of the game from a version manifest: class path,
//! JVM and game arguments, and the `${...}` variables inside them.
use vstd::prelude::*;

use crate::library::{is_native, library_rules, os_match, processes_native, Library};
use crate::paths::{join_path, path_join};
use crate::rules::{allows_os, names_os, ActionType, OsName, Rule};
use crate::template::{
    braces_closed, expand, expand_placeholders, law_expand_placeholder, law_lookup_missing_is_empty, lemma_lookup_at, lookup, placeholder_text,
    placeholders_closed, table_view, Placeholder,
};
use crate::text::{join_strings, join_with, str_eq, views};

verus! {

/// The value of a rule-guarded manifest argument.
#[derive(Clone, Debug)]
pub enum ArgumentRuledValue {
    Single(String),
    Multiple(Vec<String>),
}

/// One argument of a version manifest.
#[derive(Clone, Debug)]
pub enum Argument {
    General(String),
    Ruled { rules: Vec<Rule>, value: ArgumentRuledValue },
}

/// Values the JVM arguments refer to. Paths are held as text.
#[derive(Clone, Debug)]
pub struct JvmOptions {
    pub launcher_name: String,
    pub launcher_version: String,
    pub classpath: String,
    pub classpath_separator: String,
    pub primary_jar: String,
    pub library_directory: String,
    pub game_directory: String,
    pub native_directory: String,
}

/// Values the game arguments refer to. Paths are held as text.
#[derive(Clone, Debug)]
pub struct GameOptions {
    pub auth_player_name: String,
    pub game_version_name: String,
    pub game_directory: String,
    pub assets_root: String,
    pub assets_index_name: String,
    pub auth_access_token: String,
    pub auth_uuid: String,
    pub user_type: String,
    pub version_type: String,
}

/// The command line of the game, without the `java` executable.
#[derive(Clone, Debug)]
pub struct LaunchArgs {
    pub jvm_args: Vec<String>,
    pub main_class: String,
    pub game_args: Vec<String>,
}

/// Game arguments as the manifest lists them.
pub struct RawGameFlags {
    pub arguments: Vec<Argument>,
}

/// JVM arguments as the manifest lists them.
pub struct RawJvmFlags {
    pub arguments: Vec<Argument>,
}

/// Game arguments after rule processing.
pub struct GameFlagsProcessed {
    pub arguments: Vec<String>,
}

/// JVM arguments after rule processing.
pub struct JvmFlagsProcessed {
    pub arguments: Vec<String>,
}

/// Launch arguments together with the options they were built from.
pub struct ProcessedArguments {
    pub launch_args: LaunchArgs,
    pub jvm_args: JvmOptions,
    pub game_args: GameOptions,
}

/// A rule that lets a guarded argument through on `os` with `arch`: it allows,
/// and its condition names `os` or the architecture `arch`.
pub open spec fn rule_admits(rule: Rule, os: OsName, arch: Seq<char>) -> bool {
    &&& rule.action == ActionType::Allow
    &&& rule.os matches Some(o)
    &&& (o.name == Some(os) || (o.arch matches Some(a) && a@ == arch))
}

/// The strings a guarded argument stands for.
pub open spec fn ruled_value_strings(value: ArgumentRuledValue) -> Seq<Seq<char>> {
    match value {
        ArgumentRuledValue::Single(x) => seq![x@],
        ArgumentRuledValue::Multiple(xs) => views(xs@),
    }
}

/// The value of a guarded argument once for each of `rules` that admits it.
pub open spec fn ruled_output(rules: Seq<Rule>, value: ArgumentRuledValue, os: OsName, arch: Seq<char>) -> Seq<Seq<char>>
    decreases rules.len(),
{
    if rules.len() == 0 {
        Seq::empty()
    } else {
        ruled_output(rules.drop_last(), value, os, arch) + (if rule_admits(rules.last(), os, arch) {
            ruled_value_strings(value)
        } else {
            Seq::empty()
        })
    }
}

/// The strings one manifest argument yields.
pub open spec fn argument_output(arg: Argument, os: OsName, arch: Seq<char>) -> Seq<Seq<char>> {
    match arg {
        Argument::General(p) => seq![p@],
        Argument::Ruled { rules, value } => ruled_output(rules@, value, os, arch),
    }
}

/// The strings a list of manifest arguments yields, in order.
pub open spec fn arguments_output(args: Seq<Argument>, os: OsName, arch: Seq<char>) -> Seq<Seq<char>>
    decreases args.len(),
{
    if args.len() == 0 {
        Seq::empty()
    } else {
        arguments_output(args.drop_last(), os, arch) + argument_output(args.last(), os, arch)
    }
}

/// A library goes on the class path when it is neither native nor has natives to process.
pub open spec fn on_classpath(library: Library, os: OsName) -> bool {
    !processes_native(library, os) && !is_native(library)
}

/// The class path entry of a library under `library_path`.
pub open spec fn classpath_entry(library: Library, library_path: Seq<char>) -> Seq<char> {
    match library.downloads.artifact.path {
        Some(p) => path_join(library_path, p@),
        None => library_path,
    }
}

/// The class path entries of the libraries that go on the class path, in order.
pub open spec fn classpath_entries(libraries: Seq<Library>, library_path: Seq<char>, os: OsName) -> Seq<Seq<char>>
    decreases libraries.len(),
{
    if libraries.len() == 0 {
        Seq::empty()
    } else if on_classpath(libraries.last(), os) {
        classpath_entries(libraries.drop_last(), library_path, os).push(
            classpath_entry(libraries.last(), library_path),
        )
    } else {
        classpath_entries(libraries.drop_last(), library_path, os)
    }
}

/// The class path: the entries of the libraries, then the client jar, separated by `:`.
pub open spec fn classpath_of(libraries: Seq<Library>, library_path: Seq<char>, client_jar: Seq<char>, os: OsName) -> Seq<char> {
    join_with(classpath_entries(libraries, library_path, os).push(client_jar), ":"@)
}

/// The strings of a guarded argument for `os` and `arch`, appended to `out`.
fn push_ruled(out: &mut Vec<String>, rules: &Vec<Rule>, value: &ArgumentRuledValue, os: OsName, arch: &str)
    ensures
        views(final(out)@) == views(old(out)@) + ruled_output(rules@, *value, os, arch@),
{
    let mut i: usize = 0;
    while i < rules.len()
        invariant
            i <= rules.len(),
            views(out@) == views(old(out)@) + ruled_output(rules@.take(i as int), *value, os, arch@),
        decreases rules.len() - i,
    {
        let ghost before = views(out@);
        assert(rules@.take(i + 1).drop_last() =~= rules@.take(i as int));
        assert(rules@.take(i + 1).last() == rules@[i as int]);
        let x = &rules[i];
        let admits = x.action == ActionType::Allow && match &x.os {
            Some(os_rule) => {
                (match os_rule.name {
                    Some(n) => n == os,
                    None => false,
                }) || (match &os_rule.arch {
                    Some(a) => str_eq(a.as_str(), arch),
                    None => false,
                })
            },
            None => false,
        };
        assert(admits == rule_admits(rules@[i as int], os, arch@));
        if admits {
            match value {
                ArgumentRuledValue::Single(v) => {
                    out.push(v.clone());
                    assert(views(out@) =~= before + seq![v@]);
                },
                ArgumentRuledValue::Multiple(vs) => {
                    let mut j: usize = 0;
                    while j < vs.len()
                        invariant
                            j <= vs.len(),
                            views(out@) == before + views(vs@).take(j as int),
                        decreases vs.len() - j,
                    {
                        let ghost prev = views(out@);
                        out.push(vs[j].clone());
                        assert(views(out@) =~= prev.push(vs@[j as int]@));
                        assert(views(vs@).take(j + 1) =~= views(vs@).take(j as int).push(vs@[j as int]@));
                        assert(views(out@) =~= before + views(vs@).take(j + 1));
                        j = j + 1;
                    }
                    assert(views(vs@).take(vs.len() as int) =~= views(vs@));
                },
            }
        } else {
            assert(views(out@) =~= before + Seq::<Seq<char>>::empty());
        }
        assert(views(out@) =~= views(old(out)@) + ruled_output(rules@.take(i + 1), *value, os, arch@));
        i = i + 1;
    }
    assert(rules@.take(rules.len() as int) =~= rules@);
}

/// Works out the class path and the JVM arguments for the running system,
/// given as `current_os_type` and `current_architecture`. Native libraries stay
/// off the class path; the client jar comes last on it. A guarded argument is
/// kept once for each of its rules that admits the system.
pub fn add_jvm_rules(
    library_list: &Vec<Library>,
    library_path: &str,
    client_jar: &str,
    jvm_options: JvmOptions,
    jvm_flags: RawJvmFlags,
    current_os_type: OsName,
    current_architecture: &str,
) -> (r: (JvmOptions, JvmFlagsProcessed))
    ensures
        r.0.classpath@ == classpath_of(library_list@, library_path@, client_jar@, current_os_type),
        r.0.launcher_name == jvm_options.launcher_name,
        r.0.launcher_version == jvm_options.launcher_version,
        r.0.classpath_separator == jvm_options.classpath_separator,
        r.0.primary_jar == jvm_options.primary_jar,
        r.0.library_directory == jvm_options.library_directory,
        r.0.game_directory == jvm_options.game_directory,
        r.0.native_directory == jvm_options.native_directory,
        views(r.1.arguments@) == arguments_output(jvm_flags.arguments@, current_os_type, current_architecture@),
{
    let mut jvm_options = jvm_options;
    let mut classpath_list: Vec<String> = Vec::new();
    let mut i: usize = 0;
    while i < library_list.len()
        invariant
            i <= library_list.len(),
            views(classpath_list@) == classpath_entries(library_list@.take(i as int), library_path@, current_os_type),
        decreases library_list.len() - i,
    {
        assert(library_list@.take(i + 1).drop_last() =~= library_list@.take(i as int));
        assert(library_list@.take(i + 1).last() == library_list@[i as int]);
        let library = &library_list[i];
        let (process_native, is_native_library, _) = os_match(library, current_os_type);
        if !process_native && !is_native_library {
            let entry = match &library.downloads.artifact.path {
                Some(path) => join_path(library_path, path.as_str()),
                None => library_path.to_owned(),
            };
            let ghost before = views(classpath_list@);
            classpath_list.push(entry);
            assert(views(classpath_list@) =~= before.push(entry@));
        }
        i = i + 1;
    }
    assert(library_list@.take(library_list.len() as int) =~= library_list@);
    let ghost entries = views(classpath_list@);
    classpath_list.push(client_jar.to_owned());
    assert(views(classpath_list@) =~= entries.push(client_jar@));
    jvm_options.classpath = join_strings(&classpath_list, ":");

    let mut new_arguments: Vec<String> = Vec::new();
    let mut k: usize = 0;
    while k < jvm_flags.arguments.len()
        invariant
            k <= jvm_flags.arguments.len(),
            views(new_arguments@) == arguments_output(jvm_flags.arguments@.take(k as int), current_os_type, current_architecture@),
        decreases jvm_flags.arguments.len() - k,
    {
        assert(jvm_flags.arguments@.take(k + 1).drop_last() =~= jvm_flags.arguments@.take(k as int));
        assert(jvm_flags.arguments@.take(k + 1).last() == jvm_flags.arguments@[k as int]);
        let ghost before = views(new_arguments@);
        match &jvm_flags.arguments[k] {
            Argument::General(p) => {
                new_arguments.push(p.clone());
                assert(views(new_arguments@) =~= before + seq![p@]);
            },
            Argument::Ruled { rules, value } => {
                push_ruled(&mut new_arguments, rules, value, current_os_type, current_architecture);
            },
        }
        k = k + 1;
    }
    assert(jvm_flags.arguments@.take(jvm_flags.arguments.len() as int) =~= jvm_flags.arguments@);
    (jvm_options, JvmFlagsProcessed { arguments: new_arguments })
}

/// The variables the JVM arguments may use, in the order they are matched.
pub open spec fn jvm_table(o: JvmOptions) -> Seq<(Seq<char>, Seq<char>)> {
    seq![
        ("natives_directory"@, o.native_directory@),
        ("launcher_name"@, o.launcher_name@),
        ("launcher_version"@, o.launcher_version@),
        ("classpath"@, o.classpath@),
    ]
}

/// The variables the game arguments may use, in the order they are matched.
pub open spec fn game_table(o: GameOptions) -> Seq<(Seq<char>, Seq<char>)> {
    seq![
        ("auth_player_name"@, o.auth_player_name@),
        ("version_name"@, o.game_version_name@),
        ("game_directory"@, o.game_directory@),
        ("assets_root"@, o.assets_root@),
        ("assets_index_name"@, o.assets_index_name@),
        ("auth_uuid"@, o.auth_uuid@),
        ("auth_access_token"@, o.auth_access_token@),
        ("version_type"@, o.version_type@),
    ]
}

/// A plain JVM argument is kept as it is. A guarded one is kept once more for
/// each of its rules that allows and names the running system or its
/// architecture, and a rule that disallows, or names no system, or names
/// another system and no architecture, adds nothing. A library goes on the
/// class path, after the ones before it, at its artifact's path under the
/// library directory, exactly when no rule of it names a system; the class
/// path is its entries and then the client jar, joined by `:`.
pub proof fn law_jvm_arguments_and_classpath(
    args: Seq<Argument>,
    p: String,
    rules: Seq<Rule>,
    r: Rule,
    value: ArgumentRuledValue,
    libraries: Seq<Library>,
    l: Library,
    library_path: Seq<char>,
    client_jar: Seq<char>,
    os: OsName,
    arch: Seq<char>,
)
    ensures
        arguments_output(args.push(Argument::General(p)), os, arch) == arguments_output(args, os, arch).push(p@),
        r.action == ActionType::Disallow ==> ruled_output(rules.push(r), value, os, arch) == ruled_output(rules, value, os, arch),
        r.os is None ==> ruled_output(rules.push(r), value, os, arch) == ruled_output(rules, value, os, arch),
        r.action == ActionType::Allow && r.os is Some && r.os->0.name != Some(os) && r.os->0.arch is None ==> ruled_output(
            rules.push(r),
            value,
            os,
            arch,
        ) == ruled_output(rules, value, os, arch),
        r.action == ActionType::Allow && r.os is Some && r.os->0.name == Some(os) ==> ruled_output(rules.push(r), value, os, arch)
            == ruled_output(rules, value, os, arch) + ruled_value_strings(value),
        r.action == ActionType::Allow && r.os is Some && r.os->0.arch is Some && r.os->0.arch->0@ == arch ==> ruled_output(
            rules.push(r),
            value,
            os,
            arch,
        ) == ruled_output(rules, value, os, arch) + ruled_value_strings(value),
        value matches ArgumentRuledValue::Single(x) ==> ruled_value_strings(value) == seq![x@],
        (forall|i: int| 0 <= i < library_rules(l).len() ==> !names_os(#[trigger] library_rules(l)[i]))
            && l.downloads.artifact.path is Some ==> classpath_entries(libraries.push(l), library_path, os) == classpath_entries(
            libraries,
            library_path,
            os,
        ).push(path_join(library_path, l.downloads.artifact.path->0@)),
        (exists|i: int| 0 <= i < library_rules(l).len() && names_os(#[trigger] library_rules(l)[i])) ==> classpath_entries(
            libraries.push(l),
            library_path,
            os,
        ) == classpath_entries(libraries, library_path, os),
        classpath_of(libraries, library_path, client_jar, os) == join_with(
            classpath_entries(libraries, library_path, os).push(client_jar),
            ":"@,
        ),
{
    assert(args.push(Argument::General(p)).drop_last() =~= args);
    assert(rules.push(r).drop_last() =~= rules);
    assert(libraries.push(l).drop_last() =~= libraries);
    assert(ruled_output(rules, value, os, arch) + Seq::<Seq<char>>::empty() =~= ruled_output(rules, value, os, arch));
    if processes_native(l, os) {
        let i = choose|i: int| 0 <= i < library_rules(l).len() && allows_os(#[trigger] library_rules(l)[i], os);
        assert(names_os(library_rules(l)[i]));
    }
}

/// The value each game variable takes from the game options.
proof fn lemma_game_lookups(o: GameOptions)
    ensures
        lookup(game_table(o), "auth_player_name"@) == o.auth_player_name@,
        lookup(game_table(o), "version_name"@) == o.game_version_name@,
        lookup(game_table(o), "game_directory"@) == o.game_directory@,
        lookup(game_table(o), "assets_root"@) == o.assets_root@,
        lookup(game_table(o), "assets_index_name"@) == o.assets_index_name@,
        lookup(game_table(o), "auth_uuid"@) == o.auth_uuid@,
        lookup(game_table(o), "auth_access_token"@) == o.auth_access_token@,
        lookup(game_table(o), "version_type"@) == o.version_type@,
        lookup(game_table(o), "user_type"@) == Seq::<char>::empty(),
{
    reveal_strlit("auth_player_name");
    reveal_strlit("version_name");
    reveal_strlit("game_directory");
    reveal_strlit("assets_root");
    reveal_strlit("assets_index_name");
    reveal_strlit("auth_uuid");
    reveal_strlit("auth_access_token");
    reveal_strlit("version_type");
    reveal_strlit("user_type");
    let t = game_table(o);
    lemma_lookup_at(t, 0, "auth_player_name"@);
    assert forall|j: int| 0 <= j < 1 implies (#[trigger] t[j]).0 != "version_name"@ by {
        if j == 0 {
            assert("auth_player_name"@ != "version_name"@) by { assert("auth_player_name"@.len() != "version_name"@.len()); }
        }
    }
    lemma_lookup_at(t, 1, "version_name"@);
    assert forall|j: int| 0 <= j < 2 implies (#[trigger] t[j]).0 != "game_directory"@ by {
        if j == 0 {
            assert("auth_player_name"@ != "game_directory"@) by { assert("auth_player_name"@.len() != "game_directory"@.len()); }
        } else if j == 1 {
            assert("version_name"@ != "game_directory"@) by { assert("version_name"@.len() != "game_directory"@.len()); }
        }
    }
    lemma_lookup_at(t, 2, "game_directory"@);
    assert forall|j: int| 0 <= j < 3 implies (#[trigger] t[j]).0 != "assets_root"@ by {
        if j == 0 {
            assert("auth_player_name"@ != "assets_root"@) by { assert("auth_player_name"@.len() != "assets_root"@.len()); }
        } else if j == 1 {
            assert("version_name"@ != "assets_root"@) by { assert("version_name"@.len() != "assets_root"@.len()); }
        } else if j == 2 {
            assert("game_directory"@ != "assets_root"@) by { assert("game_directory"@.len() != "assets_root"@.len()); }
        }
    }
    lemma_lookup_at(t, 3, "assets_root"@);
    assert forall|j: int| 0 <= j < 4 implies (#[trigger] t[j]).0 != "assets_index_name"@ by {
        if j == 0 {
            assert("auth_player_name"@ != "assets_index_name"@) by { assert("auth_player_name"@.len() != "assets_index_name"@.len()); }
        } else if j == 1 {
            assert("version_name"@ != "assets_index_name"@) by { assert("version_name"@.len() != "assets_index_name"@.len()); }
        } else if j == 2 {
            assert("game_directory"@ != "assets_index_name"@) by { assert("game_directory"@.len() != "assets_index_name"@.len()); }
        } else if j == 3 {
            assert("assets_root"@ != "assets_index_name"@) by { assert("assets_root"@.len() != "assets_index_name"@.len()); }
        }
    }
    lemma_lookup_at(t, 4, "assets_index_name"@);
    assert forall|j: int| 0 <= j < 5 implies (#[trigger] t[j]).0 != "auth_uuid"@ by {
        if j == 0 {
            assert("auth_player_name"@ != "auth_uuid"@) by { assert("auth_player_name"@.len() != "auth_uuid"@.len()); }
        } else if j == 1 {
            assert("version_name"@ != "auth_uuid"@) by { assert("version_name"@.len() != "auth_uuid"@.len()); }
        } else if j == 2 {
            assert("game_directory"@ != "auth_uuid"@) by { assert("game_directory"@.len() != "auth_uuid"@.len()); }
        } else if j == 3 {
            assert("assets_root"@ != "auth_uuid"@) by { assert("assets_root"@.len() != "auth_uuid"@.len()); }
        } else if j == 4 {
            assert("assets_index_name"@ != "auth_uuid"@) by { assert("assets_index_name"@.len() != "auth_uuid"@.len()); }
        }
    }
    lemma_lookup_at(t, 5, "auth_uuid"@);
    assert forall|j: int| 0 <= j < 6 implies (#[trigger] t[j]).0 != "auth_access_token"@ by {
        if j == 0 {
            assert("auth_player_name"@ != "auth_access_token"@) by { assert("auth_player_name"@.len() != "auth_access_token"@.len()); }
        } else if j == 1 {
            assert("version_name"@ != "auth_access_token"@) by { assert("version_name"@.len() != "auth_access_token"@.len()); }
        } else if j == 2 {
            assert("game_directory"@ != "auth_access_token"@) by { assert("game_directory"@.len() != "auth_access_token"@.len()); }
        } else if j == 3 {
            assert("assets_root"@ != "auth_access_token"@) by { assert("assets_root"@.len() != "auth_access_token"@.len()); }
        } else if j == 4 {
            assert("assets_index_name"@ != "auth_access_token"@) by { assert("assets_index_name"@[1] != "auth_access_token"@[1]); }
        } else if j == 5 {
            assert("auth_uuid"@ != "auth_access_token"@) by { assert("auth_uuid"@.len() != "auth_access_token"@.len()); }
        }
    }
    lemma_lookup_at(t, 6, "auth_access_token"@);
    assert forall|j: int| 0 <= j < 7 implies (#[trigger] t[j]).0 != "version_type"@ by {
        if j == 0 {
            assert("auth_player_name"@ != "version_type"@) by { assert("auth_player_name"@.len() != "version_type"@.len()); }
        } else if j == 1 {
            assert("version_name"@ != "version_type"@) by { assert("version_name"@[8] != "version_type"@[8]); }
        } else if j == 2 {
            assert("game_directory"@ != "version_type"@) by { assert("game_directory"@.len() != "version_type"@.len()); }
        } else if j == 3 {
            assert("assets_root"@ != "version_type"@) by { assert("assets_root"@.len() != "version_type"@.len()); }
        } else if j == 4 {
            assert("assets_index_name"@ != "version_type"@) by { assert("assets_index_name"@.len() != "version_type"@.len()); }
        } else if j == 5 {
            assert("auth_uuid"@ != "version_type"@) by { assert("auth_uuid"@.len() != "version_type"@.len()); }
        } else if j == 6 {
            assert("auth_access_token"@ != "version_type"@) by { assert("auth_access_token"@.len() != "version_type"@.len()); }
        }
    }
    lemma_lookup_at(t, 7, "version_type"@);
    assert forall|j: int| 0 <= j < t.len() implies (#[trigger] t[j]).0 != "user_type"@ by {
        if j == 0 {
            assert("auth_player_name"@ != "user_type"@) by { assert("auth_player_name"@.len() != "user_type"@.len()); }
        } else if j == 1 {
            assert("version_name"@ != "user_type"@) by { assert("version_name"@.len() != "user_type"@.len()); }
        } else if j == 2 {
            assert("game_directory"@ != "user_type"@) by { assert("game_directory"@.len() != "user_type"@.len()); }
        } else if j == 3 {
            assert("assets_root"@ != "user_type"@) by { assert("assets_root"@.len() != "user_type"@.len()); }
        } else if j == 4 {
            assert("assets_index_name"@ != "user_type"@) by { assert("assets_index_name"@.len() != "user_type"@.len()); }
        } else if j == 5 {
            assert("auth_uuid"@ != "user_type"@) by { assert("auth_uuid"@[0] != "user_type"@[0]); }
        } else if j == 6 {
            assert("auth_access_token"@ != "user_type"@) by { assert("auth_access_token"@.len() != "user_type"@.len()); }
        } else if j == 7 {
            assert("version_type"@ != "user_type"@) by { assert("version_type"@.len() != "user_type"@.len()); }
        }
    }
    law_lookup_missing_is_empty(t, "user_type"@);
}

/// The value each JVM variable takes from the JVM options.
proof fn lemma_jvm_lookups(o: JvmOptions)
    ensures
        lookup(jvm_table(o), "natives_directory"@) == o.native_directory@,
        lookup(jvm_table(o), "launcher_name"@) == o.launcher_name@,
        lookup(jvm_table(o), "launcher_version"@) == o.launcher_version@,
        lookup(jvm_table(o), "classpath"@) == o.classpath@,
{
    reveal_strlit("natives_directory");
    reveal_strlit("launcher_name");
    reveal_strlit("launcher_version");
    reveal_strlit("classpath");
    let t = jvm_table(o);
    lemma_lookup_at(t, 0, "natives_directory"@);
    assert forall|j: int| 0 <= j < 1 implies (#[trigger] t[j]).0 != "launcher_name"@ by {
        if j == 0 {
            assert("natives_directory"@ != "launcher_name"@) by { assert("natives_directory"@.len() != "launcher_name"@.len()); }
        }
    }
    lemma_lookup_at(t, 1, "launcher_name"@);
    assert forall|j: int| 0 <= j < 2 implies (#[trigger] t[j]).0 != "launcher_version"@ by {
        if j == 0 {
            assert("natives_directory"@ != "launcher_version"@) by { assert("natives_directory"@.len() != "launcher_version"@.len()); }
        } else if j == 1 {
            assert("launcher_name"@ != "launcher_version"@) by { assert("launcher_name"@.len() != "launcher_version"@.len()); }
        }
    }
    lemma_lookup_at(t, 2, "launcher_version"@);
    assert forall|j: int| 0 <= j < 3 implies (#[trigger] t[j]).0 != "classpath"@ by {
        if j == 0 {
            assert("natives_directory"@ != "classpath"@) by { assert("natives_directory"@.len() != "classpath"@.len()); }
        } else if j == 1 {
            assert("launcher_name"@ != "classpath"@) by { assert("launcher_name"@.len() != "classpath"@.len()); }
        } else if j == 2 {
            assert("launcher_version"@ != "classpath"@) by { assert("launcher_version"@.len() != "classpath"@.len()); }
        }
    }
    lemma_lookup_at(t, 3, "classpath"@);
}

/// Each placeholder of a game argument is replaced by the game option it
/// names, whatever text stands after it and whatever text without `$` stands
/// before it: `${auth_access_token}` by the access token, `${auth_uuid}` by
/// the player's UUID, and so on; `${user_type}` is replaced by nothing.
pub proof fn law_game_placeholders_take_option_fields(o: GameOptions, pre: Seq<char>, post: Seq<char>)
    requires
        forall|i: int| 0 <= i < pre.len() ==> pre[i] != '$',
    ensures
        expand(pre + placeholder_text("auth_player_name"@) + post, game_table(o)) == pre + o.auth_player_name@ + expand(post, game_table(o)),
        expand(pre + placeholder_text("version_name"@) + post, game_table(o)) == pre + o.game_version_name@ + expand(post, game_table(o)),
        expand(pre + placeholder_text("game_directory"@) + post, game_table(o)) == pre + o.game_directory@ + expand(post, game_table(o)),
        expand(pre + placeholder_text("assets_root"@) + post, game_table(o)) == pre + o.assets_root@ + expand(post, game_table(o)),
        expand(pre + placeholder_text("assets_index_name"@) + post, game_table(o)) == pre + o.assets_index_name@ + expand(post, game_table(o)),
        expand(pre + placeholder_text("auth_uuid"@) + post, game_table(o)) == pre + o.auth_uuid@ + expand(post, game_table(o)),
        expand(pre + placeholder_text("auth_access_token"@) + post, game_table(o)) == pre + o.auth_access_token@ + expand(post, game_table(o)),
        expand(pre + placeholder_text("version_type"@) + post, game_table(o)) == pre + o.version_type@ + expand(post, game_table(o)),
        expand(pre + placeholder_text("user_type"@) + post, game_table(o)) == pre + expand(post, game_table(o)),
{
    lemma_game_lookups(o);
    reveal_strlit("auth_player_name");
    reveal_strlit("version_name");
    reveal_strlit("game_directory");
    reveal_strlit("assets_root");
    reveal_strlit("assets_index_name");
    reveal_strlit("auth_uuid");
    reveal_strlit("auth_access_token");
    reveal_strlit("version_type");
    reveal_strlit("user_type");
    let t = game_table(o);
    law_expand_placeholder(pre, "auth_player_name"@, post, t);
    law_expand_placeholder(pre, "version_name"@, post, t);
    law_expand_placeholder(pre, "game_directory"@, post, t);
    law_expand_placeholder(pre, "assets_root"@, post, t);
    law_expand_placeholder(pre, "assets_index_name"@, post, t);
    law_expand_placeholder(pre, "auth_uuid"@, post, t);
    law_expand_placeholder(pre, "auth_access_token"@, post, t);
    law_expand_placeholder(pre, "version_type"@, post, t);
    law_expand_placeholder(pre, "user_type"@, post, t);
    assert(pre + Seq::<char>::empty() =~= pre);
}

/// Each placeholder of a JVM argument is replaced by the JVM option it names,
/// whatever text stands after it and whatever text without `$` stands before
/// it: `${natives_directory}` by the natives directory, `${classpath}` by the
/// class path, and the launcher's name and version.
pub proof fn law_jvm_placeholders_take_option_fields(o: JvmOptions, pre: Seq<char>, post: Seq<char>)
    requires
        forall|i: int| 0 <= i < pre.len() ==> pre[i] != '$',
    ensures
        expand(pre + placeholder_text("natives_directory"@) + post, jvm_table(o)) == pre + o.native_directory@ + expand(post, jvm_table(o)),
        expand(pre + placeholder_text("launcher_name"@) + post, jvm_table(o)) == pre + o.launcher_name@ + expand(post, jvm_table(o)),
        expand(pre + placeholder_text("launcher_version"@) + post, jvm_table(o)) == pre + o.launcher_version@ + expand(post, jvm_table(o)),
        expand(pre + placeholder_text("classpath"@) + post, jvm_table(o)) == pre + o.classpath@ + expand(post, jvm_table(o)),
{
    lemma_jvm_lookups(o);
    reveal_strlit("natives_directory");
    reveal_strlit("launcher_name");
    reveal_strlit("launcher_version");
    reveal_strlit("classpath");
    let t = jvm_table(o);
    law_expand_placeholder(pre, "natives_directory"@, post, t);
    law_expand_placeholder(pre, "launcher_name"@, post, t);
    law_expand_placeholder(pre, "launcher_version"@, post, t);
    law_expand_placeholder(pre, "classpath"@, post, t);
}

/// Every argument has its `${` closed.
pub open spec fn all_closed(args: Seq<String>) -> bool {
    forall|i: int| 0 <= i < args.len() ==> braces_closed(#[trigger] args[i]@)
}

/// Whether every `${` in every argument is closed, which the argument
/// expansions below need.
pub fn arguments_closed(args: &[String]) -> (r: bool)
    ensures
        r == all_closed(args@),
{
    let mut i: usize = 0;
    while i < args.len()
        invariant
            i <= args.len(),
            forall|k: int| 0 <= k < i ==> braces_closed(#[trigger] args@[k]@),
        decreases args.len() - i,
    {
        if !placeholders_closed(args[i].as_str()) {
            return false;
        }
        i = i + 1;
    }
    true
}

fn placeholder(name: &str, value: &String) -> (r: Placeholder)
    ensures
        r.name@ == name@,
        r.value@ == value@,
{
    Placeholder { name: String::from_str(name), value: value.clone() }
}

/// Expands every argument with `table`.
fn expand_all(args: &[String], table: &Vec<Placeholder>) -> (r: Vec<String>)
    requires
        all_closed(args@),
    ensures
        r@.len() == args@.len(),
        forall|i: int| 0 <= i < args@.len() ==> #[trigger] r@[i]@ == expand(args@[i]@, table_view(table@)),
{
    let mut out: Vec<String> = Vec::new();
    let mut i: usize = 0;
    while i < args.len()
        invariant
            i <= args.len(),
            all_closed(args@),
            out@.len() == i,
            forall|k: int| 0 <= k < i ==> #[trigger] out@[k]@ == expand(args@[k]@, table_view(table@)),
        decreases args.len() - i,
    {
        assert(braces_closed(args@[i as int]@));
        let e = expand_placeholders(args[i].as_str(), table);
        out.push(e);
        i = i + 1;
    }
    out
}

/// Replaces the `${natives_directory}`, `${launcher_name}`, `${launcher_version}`
/// and `${classpath}` variables of each JVM argument with the options' values;
/// any other variable becomes empty text.
pub fn jvm_args_parse(jvm_flags: &[String], jvm_options: &JvmOptions) -> (r: Vec<String>)
    requires
        all_closed(jvm_flags@),
    ensures
        r@.len() == jvm_flags@.len(),
        forall|i: int| 0 <= i < jvm_flags@.len() ==> #[trigger] r@[i]@ == expand(jvm_flags@[i]@, jvm_table(*jvm_options)),
{
    let mut table: Vec<Placeholder> = Vec::new();
    table.push(placeholder("natives_directory", &jvm_options.native_directory));
    table.push(placeholder("launcher_name", &jvm_options.launcher_name));
    table.push(placeholder("launcher_version", &jvm_options.launcher_version));
    table.push(placeholder("classpath", &jvm_options.classpath));
    assert(table_view(table@) =~= jvm_table(*jvm_options));
    expand_all(jvm_flags, &table)
}

/// Replaces the player, version, directory, asset, uuid, token and version-type
/// variables of each game argument with the options' values; any other variable
/// becomes empty text.
pub fn game_args_parse(game_flags: &GameFlagsProcessed, game_arguments: &GameOptions) -> (r: Vec<String>)
    requires
        all_closed(game_flags.arguments@),
    ensures
        r@.len() == game_flags.arguments@.len(),
        forall|i: int| 0 <= i < game_flags.arguments@.len() ==> #[trigger] r@[i]@ == expand(game_flags.arguments@[i]@, game_table(*game_arguments)),
{
    let mut table: Vec<Placeholder> = Vec::new();
    table.push(placeholder("auth_player_name", &game_arguments.auth_player_name));
    table.push(placeholder("version_name", &game_arguments.game_version_name));
    table.push(placeholder("game_directory", &game_arguments.game_directory));
    table.push(placeholder("assets_root", &game_arguments.assets_root));
    table.push(placeholder("assets_index_name", &game_arguments.assets_index_name));
    table.push(placeholder("auth_uuid", &game_arguments.auth_uuid));
    table.push(placeholder("auth_access_token", &game_arguments.auth_access_token));
    table.push(placeholder("version_type", &game_arguments.version_type));
    assert(table_view(table@) =~= game_table(*game_arguments));
    expand_all(game_flags.arguments.as_slice(), &table)
}

/// Wraps the manifest's JVM arguments.
pub fn setup_jvm_flags(jvm_argument: Vec<Argument>) -> (r: RawJvmFlags)
    ensures
        r.arguments == jvm_argument,
{
    RawJvmFlags { arguments: jvm_argument }
}

/// Wraps the manifest's game arguments.
pub fn setup_game_flags(game_arguments: Vec<Argument>) -> (r: RawGameFlags)
    ensures
        r.arguments == game_arguments,
{
    RawGameFlags { arguments: game_arguments }
}

/// The JVM options of this launcher for a client jar and the (canonical)
/// library, game and native directories; the class path starts empty.
pub fn setup_jvm_options(
    client_jar: String,
    library_directory: String,
    game_directory: String,
    native_directory: String,
) -> (r: JvmOptions)
    ensures
        r.launcher_name@ == "era-connect"@,
        r.launcher_version@ == "0.0.1"@,
        r.classpath@ == Seq::<char>::empty(),
        r.classpath_separator@ == ":"@,
        r.primary_jar == client_jar,
        r.library_directory == library_directory,
        r.game_directory == game_directory,
        r.native_directory == native_directory,
{
    JvmOptions {
        launcher_name: String::from_str("era-connect"),
        launcher_version: String::from_str("0.0.1"),
        classpath: String::new(),
        classpath_separator: String::from_str(":"),
        primary_jar: client_jar,
        library_directory,
        game_directory,
        native_directory,
    }
}

/// The words of the `java` command line: JVM arguments, main class, game arguments.
pub open spec fn command_words(args: LaunchArgs) -> Seq<Seq<char>> {
    views(args.jvm_args@) + seq![args.main_class@] + views(args.game_args@)
}

/// The arguments `java` is started with to launch the game.
pub fn launch_command(launch_args: &LaunchArgs) -> (r: Vec<String>)
    ensures
        views(r@) == command_words(*launch_args),
{
    let mut launch_vec: Vec<String> = Vec::new();
    let mut i: usize = 0;
    while i < launch_args.jvm_args.len()
        invariant
            i <= launch_args.jvm_args.len(),
            views(launch_vec@) == views(launch_args.jvm_args@).take(i as int),
        decreases launch_args.jvm_args.len() - i,
    {
        let ghost prev = views(launch_vec@);
        launch_vec.push(launch_args.jvm_args[i].clone());
        assert(views(launch_vec@) =~= prev.push(launch_args.jvm_args@[i as int]@));
        assert(views(launch_args.jvm_args@).take(i + 1) =~= views(launch_args.jvm_args@).take(i as int).push(launch_args.jvm_args@[i as int]@));
        i = i + 1;
    }
    let ghost prefix = views(launch_vec@);
    assert(prefix =~= views(launch_args.jvm_args@));
    launch_vec.push(launch_args.main_class.clone());
    assert(views(launch_vec@) =~= views(launch_args.jvm_args@) + seq![launch_args.main_class@]);
    let ghost middle = views(launch_vec@);
    let mut j: usize = 0;
    while j < launch_args.game_args.len()
        invariant
            j <= launch_args.game_args.len(),
            views(launch_vec@) == middle + views(launch_args.game_args@).take(j as int),
        decreases launch_args.game_args.len() - j,
    {
        let ghost prev = views(launch_vec@);
        launch_vec.push(launch_args.game_args[j].clone());
        assert(views(launch_vec@) =~= prev.push(launch_args.game_args@[j as int]@));
        assert(views(launch_args.game_args@).take(j + 1) =~= views(launch_args.game_args@).take(j as int).push(launch_args.game_args@[j as int]@));
        j = j + 1;
    }
    assert(views(launch_args.game_args@).take(launch_args.game_args.len() as int) =~= views(launch_args.game_args@));
    launch_vec
}

} // verus!

