//! Mod loaders: finding a loader's manifest for a game version, and adding the
//! loader's libraries to the class path of the game.
use vstd::prelude::*;
use vstd::seq_lib::lemma_seq_contains_after_push;

use crate::collection::ModLoaderType;
use crate::download::FileNameError;
use crate::launcher::LaunchArgs;
use crate::paths::{join_path, path_join};
use crate::download::{hash_matches, needs_fetch};
use crate::text::{
    char_from, find_char_from, join_strings, join_with, lemma_char_from_bounds, lemma_split_first_piece, replace_text, replaced,
    slice_to_string, split_on, split_text, str_eq, views,
};

verus! {

/// A loader release listed for a game version.
#[derive(Debug)]
pub struct Loaders {
    pub id: String,
    pub url: String,
    pub stable: bool,
}

/// A game version and the loader releases made for it.
#[derive(Debug)]
pub struct ModloaderVersion {
    pub id: String,
    pub stable: bool,
    pub loaders: Vec<Loaders>,
}

/// The index of a mod loader's releases.
#[derive(Debug)]
pub struct ModloaderVersionsManifest {
    pub game_versions: Vec<ModloaderVersion>,
}

/// An artifact of a loader library.
#[derive(Debug)]
pub struct ModloaderLibraryArtifact {
    pub path: String,
    pub sha1: String,
    pub size: usize,
    pub url: String,
}

#[derive(Debug)]
pub struct ModloaderLibraryDownloadMetadata {
    pub artifact: ModloaderLibraryArtifact,
}

/// A library a mod loader needs.
#[derive(Debug)]
pub struct ModloaderLibrary {
    pub downloads: Option<ModloaderLibraryDownloadMetadata>,
    pub name: String,
    pub url: Option<String>,
    pub include_in_classpath: bool,
}

/// Errors while preparing a mod loader.
#[derive(Debug)]
pub enum ManifestProcessingError {
    /// The loader's index lists no such game version.
    GameVersionNotExist { desired: String },
    /// The game version lists no (such) loader release.
    NoManifest { modloader_type: ModLoaderType },
    /// The JVM arguments end in `-cp`, with no class path after it.
    NoClassPath,
    /// A manifest lacks an entry.
    ManifestLookUp { key: String },
    /// A library name is not a Maven coordinate.
    MavenPathTranslation { str: String },
    /// A library has neither a download nor a repository URL.
    LibraryUrlNotExist,
    /// The client jar's URL names no file.
    ExtractDownloadingFilename { source: FileNameError, str: String },
}

/// The placeholder Quilt and Fabric indexes write for the game version.
pub open spec fn game_version_placeholder() -> Seq<char> {
    "${modrinth.gameVersion}"@
}

/// The index entry `v` stands for `game_version`. Quilt and Fabric indexes may
/// write the game version as a placeholder.
pub open spec fn names_game_version(v: ModloaderVersion, loader: ModLoaderType, game_version: Seq<char>) -> bool {
    if loader == ModLoaderType::Quilt || loader == ModLoaderType::Fabric {
        replaced(v.id@, game_version_placeholder(), game_version) == game_version
    } else {
        v.id@ == game_version
    }
}

/// Index of the first entry of `versions` that stands for `game_version`, or `-1`.
pub open spec fn game_version_index(versions: Seq<ModloaderVersion>, loader: ModLoaderType, game_version: Seq<char>) -> int
    decreases versions.len(),
{
    if versions.len() == 0 {
        -1
    } else {
        let i = game_version_index(versions.drop_last(), loader, game_version);
        if i >= 0 {
            i
        } else if names_game_version(versions.last(), loader, game_version) {
            versions.len() - 1
        } else {
            -1
        }
    }
}

/// Index of the loader release to use: the first one with id `wanted`, or the
/// first one when no id is asked for; `-1` when there is none.
pub open spec fn loader_index(loaders: Seq<Loaders>, wanted: Option<Seq<char>>) -> int
    decreases loaders.len(),
{
    if loaders.len() == 0 {
        -1
    } else {
        match wanted {
            None => 0,
            Some(w) => {
                let i = loader_index(loaders.drop_last(), wanted);
                if i >= 0 {
                    i
                } else if loaders.last().id@ == w {
                    loaders.len() - 1
                } else {
                    -1
                }
            },
        }
    }
}

/// Position of the first index entry that stands for `game_version`.
fn find_game_version(versions: &Vec<ModloaderVersion>, mod_loader: ModLoaderType, game_version: &str) -> (r: Option<usize>)
    ensures
        match r {
            None => game_version_index(versions@, mod_loader, game_version@) == -1,
            Some(g) => g == game_version_index(versions@, mod_loader, game_version@) && g < versions@.len(),
        },
{
    let quilt_like = mod_loader == ModLoaderType::Quilt || mod_loader == ModLoaderType::Fabric;
    let mut i: usize = 0;
    while i < versions.len()
        invariant
            i <= versions.len(),
            quilt_like == (mod_loader == ModLoaderType::Quilt || mod_loader == ModLoaderType::Fabric),
            game_version_index(versions@.take(i as int), mod_loader, game_version@) == -1,
        decreases versions.len() - i,
    {
        assert(versions@.take(i + 1).drop_last() =~= versions@.take(i as int));
        let hit = if quilt_like {
            proof {
                reveal_strlit("${modrinth.gameVersion}");
            }
            let id = replace_text(versions[i].id.as_str(), "${modrinth.gameVersion}", game_version);
            str_eq(id.as_str(), game_version)
        } else {
            str_eq(versions[i].id.as_str(), game_version)
        };
        if hit {
            proof {
                lemma_index_prefix(versions@, i as int, mod_loader, game_version@);
            }
            return Some(i);
        }
        i = i + 1;
    }
    assert(versions@.take(versions.len() as int) =~= versions@);
    None
}

/// Position of the loader release to use: the first with id `wanted`, or the
/// first of all when no id is asked for.
fn find_loader(loaders: &Vec<Loaders>, wanted: Option<&str>) -> (r: Option<usize>)
    ensures
        ({
            let w = match wanted {
                Some(w) => Some(w@),
                None => None,
            };
            match r {
                None => loader_index(loaders@, w) == -1,
                Some(k) => k == loader_index(loaders@, w) && k < loaders@.len(),
            }
        }),
{
    if loaders.len() == 0 {
        return None;
    }
    match wanted {
        None => Some(0),
        Some(w) => {
            let mut k: usize = 0;
            while k < loaders.len()
                invariant
                    k <= loaders.len(),
                    wanted == Some(w),
                    loader_index(loaders@.take(k as int), Some(w@)) == -1,
                decreases loaders.len() - k,
            {
                assert(loaders@.take(k + 1).drop_last() =~= loaders@.take(k as int));
                if str_eq(loaders[k].id.as_str(), w) {
                    proof {
                        lemma_loader_prefix(loaders@, k as int, w@);
                    }
                    return Some(k);
                }
                k = k + 1;
            }
            assert(loaders@.take(loaders.len() as int) =~= loaders@);
            None
        },
    }
}

/// Finds the URL of the loader manifest for `game_version` in a loader's index.
/// Fails with `GameVersionNotExist` when the index lists no such game version and
/// with `NoManifest` when that version lists no (such) loader release.
pub fn select_loader_url(
    manifest: &ModloaderVersionsManifest,
    mod_loader: ModLoaderType,
    game_version: &str,
    loader_version: Option<&str>,
) -> (r: Result<String, ManifestProcessingError>)
    ensures
        ({
            let gi = game_version_index(manifest.game_versions@, mod_loader, game_version@);
            let wanted = match loader_version {
                Some(w) => Some(w@),
                None => None,
            };
            &&& gi < 0 ==> (r matches Err(ManifestProcessingError::GameVersionNotExist { desired }) && desired@ == game_version@)
            &&& gi >= 0 ==> {
                let loaders = manifest.game_versions@[gi].loaders@;
                let li = loader_index(loaders, wanted);
                &&& li < 0 ==> (r matches Err(ManifestProcessingError::NoManifest { modloader_type }) && modloader_type == mod_loader)
                &&& li >= 0 ==> (r matches Ok(url) && url@ == loaders[li].url@)
            }
        }),
{
    match find_game_version(&manifest.game_versions, mod_loader, game_version) {
        None => Err(ManifestProcessingError::GameVersionNotExist { desired: game_version.to_owned() }),
        Some(g) => {
            let loaders = &manifest.game_versions[g].loaders;
            match find_loader(loaders, loader_version) {
                None => Err(ManifestProcessingError::NoManifest { modloader_type: mod_loader }),
                Some(k) => Ok(loaders[k].url.clone()),
            }
        },
    }
}

/// An index found in a prefix is the index in the whole sequence.
proof fn lemma_index_prefix(versions: Seq<ModloaderVersion>, i: int, loader: ModLoaderType, game_version: Seq<char>)
    requires
        0 <= i < versions.len(),
        game_version_index(versions.take(i), loader, game_version) == -1,
        names_game_version(versions[i], loader, game_version),
    ensures
        game_version_index(versions, loader, game_version) == i,
    decreases versions.len(),
{
    if versions.len() == i + 1 {
        assert(versions.drop_last() =~= versions.take(i));
    } else {
        assert(versions.drop_last().take(i) =~= versions.take(i));
        lemma_index_prefix(versions.drop_last(), i, loader, game_version);
    }
}

/// A loader found in a prefix is the one chosen in the whole sequence.
proof fn lemma_loader_prefix(loaders: Seq<Loaders>, k: int, w: Seq<char>)
    requires
        0 <= k < loaders.len(),
        loader_index(loaders.take(k), Some(w)) == -1,
        loaders[k].id@ == w,
    ensures
        loader_index(loaders, Some(w)) == k,
    decreases loaders.len(),
{
    if loaders.len() == k + 1 {
        assert(loaders.drop_last() =~= loaders.take(k));
    } else {
        assert(loaders.drop_last().take(k) =~= loaders.take(k));
        lemma_loader_prefix(loaders.drop_last(), k, w);
    }
}

/// Quilt and Fabric libraries name the game version with a placeholder; their
/// names get `game_version` in its place. Other loaders' libraries are kept.
pub fn substitute_library_names(libraries: &mut Vec<ModloaderLibrary>, mod_loader: ModLoaderType, game_version: &str)
    ensures
        final(libraries)@.len() == old(libraries)@.len(),
        forall|i: int| 0 <= i < old(libraries)@.len() ==> {
            let a = #[trigger] final(libraries)@[i];
            let b = old(libraries)@[i];
            &&& a.downloads == b.downloads
            &&& a.url == b.url
            &&& a.include_in_classpath == b.include_in_classpath
            &&& a.name@ == (if mod_loader == ModLoaderType::Quilt || mod_loader == ModLoaderType::Fabric {
                replaced(b.name@, game_version_placeholder(), game_version@)
            } else {
                b.name@
            })
        },
{
    if !(mod_loader == ModLoaderType::Quilt || mod_loader == ModLoaderType::Fabric) {
        return;
    }
    proof {
        reveal_strlit("${modrinth.gameVersion}");
    }
    let ghost start = libraries@;
    let mut i: usize = 0;
    while i < libraries.len()
        invariant
            i <= libraries.len(),
            libraries@.len() == start.len(),
            start == old(libraries)@,
            mod_loader == ModLoaderType::Quilt || mod_loader == ModLoaderType::Fabric,
            "${modrinth.gameVersion}"@.len() > 0,
            forall|k: int| i <= k < start.len() ==> #[trigger] libraries@[k] == start[k],
            forall|k: int| 0 <= k < i ==> {
                let a = #[trigger] libraries@[k];
                let b = start[k];
                &&& a.downloads == b.downloads
                &&& a.url == b.url
                &&& a.include_in_classpath == b.include_in_classpath
                &&& a.name@ == replaced(b.name@, game_version_placeholder(), game_version@)
            },
        decreases libraries.len() - i,
    {
        let new_name = replace_text(libraries[i].name.as_str(), "${modrinth.gameVersion}", game_version);
        let mut lib = libraries.remove(i);
        lib.name = new_name;
        libraries.insert(i, lib);
        i = i + 1;
    }
}

/// The path, in a Maven repository, of the artifact named
/// `group:artifact:version[:classifier][@extension]`: the group with its dots
/// as directories, the artifact, the version, and the file
/// `artifact-version[-classifier].extension` (`jar` by default). `None` when
/// the name has fewer than three parts.
pub open spec fn maven_path_of(name: Seq<char>) -> Option<Seq<char>> {
    let at = char_from(name, '@', 0);
    let coords = if at >= 0 { name.subrange(0, at) } else { name };
    let ext = if at >= 0 { name.subrange(at + 1, name.len() as int) } else { "jar"@ };
    let parts = split_on(coords, ':');
    if parts.len() < 3 {
        None
    } else {
        let classifier = if parts.len() > 3 { seq!['-'] + parts[3] } else { Seq::empty() };
        Some(replaced(parts[0], "."@, "/"@) + seq!['/'] + parts[1] + seq!['/'] + parts[2] + seq!['/'] + parts[1] + seq!['-'] + parts[2]
            + classifier + seq!['.'] + ext)
    }
}

/// Text free of the characters `c` and `d`.
pub open spec fn free_of(s: Seq<char>, c: char, d: char) -> bool {
    forall|i: int| 0 <= i < s.len() ==> s[i] != c && s[i] != d
}

/// The standard Maven layout: `group:artifact:version` lies at
/// `group/as/dirs/artifact/version/artifact-version.jar`, and with
/// `@extension` the file takes that extension; a name of only
/// `group:artifact` has no path.
pub proof fn law_maven_layout(g: Seq<char>, a: Seq<char>, v: Seq<char>, e: Seq<char>)
    requires
        free_of(g, ':', '@'),
        free_of(a, ':', '@'),
        free_of(v, ':', '@'),
        free_of(e, '@', '@'),
    ensures
        maven_path_of(g + seq![':'] + a + seq![':'] + v) == Some(
            replaced(g, "."@, "/"@) + seq!['/'] + a + seq!['/'] + v + seq!['/'] + a + seq!['-'] + v + seq!['.'] + "jar"@,
        ),
        maven_path_of(g + seq![':'] + a + seq![':'] + v + seq!['@'] + e) == Some(
            replaced(g, "."@, "/"@) + seq!['/'] + a + seq!['/'] + v + seq!['/'] + a + seq!['-'] + v + seq!['.'] + e,
        ),
        maven_path_of(g + seq![':'] + a) is None,
{
    let coords = g + seq![':'] + a + seq![':'] + v;
    let tail = a + seq![':'] + v;
    lemma_split_first_piece(v, Seq::empty(), ':');
    lemma_split_first_piece(a, v, ':');
    lemma_split_first_piece(g, tail, ':');
    assert(g + seq![':'] + tail =~= coords);
    assert(split_on(coords, ':') =~= seq![g, a, v]);
    assert(free_of(coords, '@', '@')) by {
        assert forall|i: int| 0 <= i < coords.len() implies coords[i] != '@' by {
            if i < g.len() {
                assert(coords[i] == g[i]);
            } else if i == g.len() {
            } else if i < g.len() + 1 + a.len() {
                assert(coords[i] == a[i - g.len() - 1]);
            } else if i == g.len() + 1 + a.len() {
            } else {
                assert(coords[i] == v[i - g.len() - 2 - a.len()]);
            }
        }
    }
    lemma_char_from_bounds(coords, '@', 0);
    if char_from(coords, '@', 0) >= 0 {
        assert(coords[char_from(coords, '@', 0)] != '@');
    }
    let named = coords + seq!['@'] + e;
    lemma_char_from_bounds(named, '@', 0);
    let at = char_from(named, '@', 0);
    assert(named[coords.len() as int] == '@');
    if at != coords.len() {
        if 0 <= at < coords.len() {
            assert(named[at] == coords[at]);
        }
    }
    assert(named.subrange(0, coords.len() as int) =~= coords);
    assert(named.subrange(coords.len() as int + 1, named.len() as int) =~= e);
    let short = g + seq![':'] + a;
    lemma_split_first_piece(a, Seq::empty(), ':');
    lemma_split_first_piece(g, a, ':');
    assert(free_of(short, '@', '@')) by {
        assert forall|i: int| 0 <= i < short.len() implies short[i] != '@' by {
            if i < g.len() {
                assert(short[i] == g[i]);
            } else if i > g.len() {
                assert(short[i] == a[i - g.len() - 1]);
            }
        }
    }
    lemma_char_from_bounds(short, '@', 0);
    if char_from(short, '@', 0) >= 0 {
        assert(short[char_from(short, '@', 0)] != '@');
    }
    assert(split_on(short, ':') =~= seq![g, a]);
}

/// The Maven repository path of the artifact `name`; see `maven_path_of`.
pub fn convert_maven_to_path(name: &str) -> (r: Option<String>)
    ensures
        match r {
            Some(p) => maven_path_of(name@) == Some(p@),
            None => maven_path_of(name@) is None,
        },
{
    proof {
        lemma_char_from_bounds(name@, '@', 0);
        reveal_strlit("jar");
        reveal_strlit(".");
        reveal_strlit("/");
        reveal_strlit("-");
    }
    let n = name.unicode_len();
    let (coords, ext) = match find_char_from(name, '@', 0) {
        Some(at) => (slice_to_string(name, 0, at), slice_to_string(name, at + 1, n)),
        None => (name.to_owned(), String::from_str("jar")),
    };
    let parts = split_text(coords.as_str(), ':');
    if parts.len() < 3 {
        return None;
    }
    let mut out = replace_text(parts[0].as_str(), ".", "/");
    out.append("/");
    out.append(parts[1].as_str());
    out.append("/");
    out.append(parts[2].as_str());
    out.append("/");
    out.append(parts[1].as_str());
    out.append("-");
    out.append(parts[2].as_str());
    if parts.len() > 3 {
        out.append("-");
        out.append(parts[3].as_str());
    }
    out.append(".");
    out.append(ext.as_str());
    proof {
        let v = views(parts@);
        assert(v[0] == parts@[0]@);
        assert(v[1] == parts@[1]@);
        assert(v[2] == parts@[2]@);
        if parts@.len() > 3 {
            assert(v[3] == parts@[3]@);
        }
        let classifier = if v.len() > 3 { seq!['-'] + v[3] } else { Seq::<char>::empty() };
        assert(out@ =~= replaced(v[0], "."@, "/"@) + seq!['/'] + v[1] + seq!['/'] + v[2] + seq!['/'] + v[1] + seq!['-'] + v[2]
            + classifier + seq!['.'] + ext@);
    }
    Some(out)
}

/// What the download step plans for one library of a mod loader.
#[derive(Debug)]
pub enum ModloaderLibraryPlan {
    /// An artifact with a download: fetched when missing or not matching its SHA-1.
    Artifact { path: String, url: String, sha1: String, size: usize },
    /// A library from a Maven repository: fetched when missing.
    Maven { path: String, url: String },
}

/// A plan as plain values: path, URL, and for an artifact its SHA-1 and size.
pub open spec fn modloader_plan_view(p: ModloaderLibraryPlan) -> (Seq<char>, Seq<char>, Option<(Seq<char>, usize)>) {
    match p {
        ModloaderLibraryPlan::Artifact { path, url, sha1, size } => (path@, url@, Some((sha1@, size))),
        ModloaderLibraryPlan::Maven { path, url } => (path@, url@, None),
    }
}

/// The plan for one library placed under `dir`, or why there is none: the
/// name when it is not a Maven coordinate, `None` when no URL is known.
pub open spec fn modloader_plan_of(l: ModloaderLibrary, dir: Seq<char>) -> Result<(Seq<char>, Seq<char>, Option<(Seq<char>, usize)>), Option<Seq<char>>> {
    match l.downloads {
        Some(d) => Ok((path_join(dir, d.artifact.path@), d.artifact.url@, Some((d.artifact.sha1@, d.artifact.size)))),
        None => match maven_path_of(l.name@) {
            None => Err(Some(l.name@)),
            Some(p) => match l.url {
                None => Err(None),
                Some(u) => Ok((path_join(dir, p), u@ + p, None)),
            },
        },
    }
}

/// The plans for `libs` placed under `dir`, in order, or why the first that
/// has none has none.
pub open spec fn modloader_plans_of(libs: Seq<ModloaderLibrary>, dir: Seq<char>) -> Result<Seq<(Seq<char>, Seq<char>, Option<(Seq<char>, usize)>)>, Option<Seq<char>>>
    decreases libs.len(),
{
    if libs.len() == 0 {
        Ok(Seq::empty())
    } else {
        match modloader_plans_of(libs.drop_last(), dir) {
            Err(e) => Err(e),
            Ok(ps) => match modloader_plan_of(libs.last(), dir) {
                Err(e) => Err(e),
                Ok(p) => Ok(ps.push(p)),
            },
        }
    }
}

/// The class path entries of `libs` placed under `dir`: the path of each
/// library that goes on the class path, in order.
pub open spec fn modloader_classpath_of(libs: Seq<ModloaderLibrary>, dir: Seq<char>) -> Seq<Seq<char>>
    decreases libs.len(),
{
    if libs.len() == 0 {
        Seq::empty()
    } else {
        let prev = modloader_classpath_of(libs.drop_last(), dir);
        let l = libs.last();
        if l.include_in_classpath && modloader_plan_of(l, dir) is Ok {
            prev.push(modloader_plan_of(l, dir)->Ok_0.0)
        } else {
            prev
        }
    }
}

/// Plans the download of a mod loader's libraries into `library_directory`
/// and lists their class path entries; see `modloader_plans_of` and
/// `modloader_classpath_of`. Fails with `MavenPathTranslation` or
/// `LibraryUrlNotExist` for the first library that has no plan.
pub fn modloader_library_plans(libraries: &Vec<ModloaderLibrary>, library_directory: &str) -> (r: Result<(Vec<ModloaderLibraryPlan>, Vec<String>), ManifestProcessingError>)
    ensures
        match modloader_plans_of(libraries@, library_directory@) {
            Ok(ps) => r matches Ok((plans, cp)) && plans@.map_values(|p: ModloaderLibraryPlan| modloader_plan_view(p)) == ps
                && views(cp@) == modloader_classpath_of(libraries@, library_directory@),
            Err(Some(name)) => r matches Err(ManifestProcessingError::MavenPathTranslation { str }) && str@ == name,
            Err(None) => r matches Err(ManifestProcessingError::LibraryUrlNotExist),
        },
{
    let mut plans: Vec<ModloaderLibraryPlan> = Vec::new();
    let mut classpath: Vec<String> = Vec::new();
    let mut i: usize = 0;
    while i < libraries.len()
        invariant
            i <= libraries@.len(),
            modloader_plans_of(libraries@.take(i as int), library_directory@) matches Ok(ps)
                && plans@.map_values(|p: ModloaderLibraryPlan| modloader_plan_view(p)) == ps,
            views(classpath@) == modloader_classpath_of(libraries@.take(i as int), library_directory@),
        decreases libraries@.len() - i,
    {
        assert(libraries@.take(i + 1).drop_last() =~= libraries@.take(i as int));
        let l = &libraries[i];
        let plan = match &l.downloads {
            Some(d) => ModloaderLibraryPlan::Artifact {
                path: join_path(library_directory, d.artifact.path.as_str()),
                url: d.artifact.url.clone(),
                sha1: d.artifact.sha1.clone(),
                size: d.artifact.size,
            },
            None => {
                let name = match convert_maven_to_path(l.name.as_str()) {
                    None => {
                        proof {
                            lemma_modloader_plans_fail(libraries@, i as int, library_directory@);
                        }
                        return Err(ManifestProcessingError::MavenPathTranslation { str: l.name.clone() });
                    },
                    Some(n) => n,
                };
                let base = match &l.url {
                    None => {
                        proof {
                            lemma_modloader_plans_fail(libraries@, i as int, library_directory@);
                        }
                        return Err(ManifestProcessingError::LibraryUrlNotExist);
                    },
                    Some(u) => u,
                };
                let mut url = base.clone();
                url.append(name.as_str());
                ModloaderLibraryPlan::Maven { path: join_path(library_directory, name.as_str()), url }
            },
        };
        let ghost pv = modloader_plan_view(plan);
        assert(modloader_plan_of(*l, library_directory@) == Ok::<_, Option<Seq<char>>>(pv));
        if l.include_in_classpath {
            let entry = match &plan {
                ModloaderLibraryPlan::Artifact { path, .. } => path.clone(),
                ModloaderLibraryPlan::Maven { path, .. } => path.clone(),
            };
            let ghost prev = views(classpath@);
            classpath.push(entry);
            assert(views(classpath@) =~= prev.push(pv.0));
        }
        let ghost before = plans@.map_values(|p: ModloaderLibraryPlan| modloader_plan_view(p));
        plans.push(plan);
        assert(plans@.map_values(|p: ModloaderLibraryPlan| modloader_plan_view(p)) =~= before.push(pv));
        i = i + 1;
    }
    assert(libraries@.take(libraries@.len() as int) =~= libraries@);
    Ok((plans, classpath))
}

/// When the first `i` libraries have plans and library `i` has none, all of
/// `libs` fail as library `i` does.
proof fn lemma_modloader_plans_fail(libs: Seq<ModloaderLibrary>, i: int, dir: Seq<char>)
    requires
        0 <= i < libs.len(),
        modloader_plans_of(libs.take(i), dir) is Ok,
        modloader_plan_of(libs[i], dir) is Err,
    ensures
        modloader_plans_of(libs, dir) == Err::<Seq<(Seq<char>, Seq<char>, Option<(Seq<char>, usize)>)>, Option<Seq<char>>>(modloader_plan_of(libs[i], dir)->Err_0),
    decreases libs.len(),
{
    assert(libs.take(i + 1).drop_last() =~= libs.take(i));
    if libs.len() == i + 1 {
        assert(libs.take(i + 1) =~= libs);
    } else {
        assert(libs.drop_last().take(i) =~= libs.take(i));
        lemma_modloader_plans_fail(libs.drop_last(), i, dir);
    }
}

/// Each library paired with the path of its plan, flagged when it goes on the
/// class path; `ps` are the plans of `libs`.
pub open spec fn classpath_candidates(
    libs: Seq<ModloaderLibrary>,
    ps: Seq<(Seq<char>, Seq<char>, Option<(Seq<char>, usize)>)>,
) -> Seq<(bool, Seq<char>)> {
    Seq::new(libs.len(), |i: int| (libs[i].include_in_classpath, ps[i].0))
}

/// When every library has a plan, there is one plan per library, and the class
/// path lists the plan path of every library marked for the class path, and
/// nothing else, in the libraries' order, whatever kind of plan (artifact or
/// Maven) the library has.
pub proof fn law_classpath_lists_included_plans(libs: Seq<ModloaderLibrary>, dir: Seq<char>)
    requires
        modloader_plans_of(libs, dir) is Ok,
    ensures
        modloader_plans_of(libs, dir)->Ok_0.len() == libs.len(),
        modloader_classpath_of(libs, dir) == classpath_candidates(libs, modloader_plans_of(libs, dir)->Ok_0).filter_map(
            |x: (bool, Seq<char>)| if x.0 { Some(x.1) } else { None },
        ),
    decreases libs.len(),
{
    if libs.len() > 0 {
        let prev = libs.drop_last();
        law_classpath_lists_included_plans(prev, dir);
        let ps = modloader_plans_of(libs, dir)->Ok_0;
        let pp = modloader_plans_of(prev, dir)->Ok_0;
        assert(ps == pp.push(modloader_plan_of(libs.last(), dir)->Ok_0));
        let c = classpath_candidates(libs, ps);
        assert(c.drop_last() =~= classpath_candidates(prev, pp));
    } else {
        assert(classpath_candidates(libs, modloader_plans_of(libs, dir)->Ok_0) =~= Seq::<(bool, Seq<char>)>::empty());
    }
}

/// What the download task of a planned artifact does.
#[derive(Clone, Copy, Debug, PartialEq, Eq, Structural)]
pub struct ArtifactStep {
    /// Fetch the artifact.
    pub fetch: bool,
    /// Count its size once more in the download total.
    pub count: bool,
}

/// The download task of an artifact fetches it when it is missing (then also
/// counting its size) or does not have its SHA-1; else it keeps it.
pub fn artifact_step(contents: Option<&[u8]>, sha1: &str) -> (r: ArtifactStep)
    ensures
        r.fetch == match contents {
            None => true,
            Some(c) => !hash_matches(c@, sha1@),
        },
        r.count == contents is None,
{
    ArtifactStep { fetch: needs_fetch(contents, sha1), count: contents.is_none() }
}

/// No text occurs twice in `s`.
pub open spec fn distinct(s: Seq<Seq<char>>) -> bool {
    forall|i: int, j: int| 0 <= i < j < s.len() ==> s[i] != s[j]
}

/// Whether `s` holds `x`.
fn holds_text(s: &Vec<String>, x: &str) -> (r: bool)
    ensures
        r == views(s@).contains(x@),
{
    let mut i: usize = 0;
    while i < s.len()
        invariant
            i <= s.len(),
            forall|k: int| 0 <= k < i ==> s@[k]@ != x@,
        decreases s.len() - i,
    {
        if str_eq(s[i].as_str(), x) {
            assert(views(s@)[i as int] == x@);
            return true;
        }
        i = i + 1;
    }
    false
}

/// Appends to `set` the texts of `items` it does not hold yet.
fn add_missing(set: &mut Vec<String>, items: &Vec<String>)
    requires
        distinct(views(old(set)@)),
    ensures
        distinct(views(final(set)@)),
        forall|x: Seq<char>| #[trigger] views(final(set)@).contains(x) <==> (views(old(set)@).contains(x) || views(items@).contains(x)),
{
    let ghost o = views(set@);
    let mut i: usize = 0;
    while i < items.len()
        invariant
            i <= items.len(),
            o == views(old(set)@),
            distinct(views(set@)),
            forall|x: Seq<char>| #[trigger] views(set@).contains(x) <==> (o.contains(x) || views(items@).take(i as int).contains(x)),
        decreases items.len() - i,
    {
        let ghost prev = views(set@);
        let ghost t = views(items@).take(i as int);
        let ghost y = items@[i as int]@;
        assert(views(items@).take(i + 1) =~= t.push(y));
        if !holds_text(set, items[i].as_str()) {
            set.push(items[i].clone());
            assert(views(set@) =~= prev.push(y));
            assert forall|a: int, b: int| 0 <= a < b < views(set@).len() implies views(set@)[a] != views(set@)[b] by {
                if b == prev.len() && prev[a] == y {
                    assert(prev.contains(y));
                }
            }
            assert forall|x: Seq<char>| #[trigger] views(set@).contains(x) <==> (o.contains(x) || views(items@).take(i + 1).contains(x)) by {
                lemma_seq_contains_after_push(t, y, x);
                lemma_seq_contains_after_push(prev, y, x);
                assert(prev.contains(x) <==> (o.contains(x) || t.contains(x)));
                assert(views(set@).contains(x) == prev.push(y).contains(x));
                assert(views(items@).take(i + 1).contains(x) == t.push(y).contains(x));
            }
        } else {
            assert forall|x: Seq<char>| #[trigger] views(set@).contains(x) <==> (o.contains(x) || views(items@).take(i + 1).contains(x)) by {
                lemma_seq_contains_after_push(t, y, x);
            }
        }
        i = i + 1;
    }
    assert(views(items@).take(items.len() as int) =~= views(items@));
}

/// `pos` is the first position of `-cp` in `args`.
pub open spec fn is_first_cp(args: Seq<Seq<char>>, pos: int) -> bool {
    0 <= pos < args.len() && args[pos] == "-cp"@ && forall|k: int| 0 <= k < pos ==> args[k] != "-cp"@
}

/// Puts the class path entries `classpath` into the class path that follows
/// `-cp` among the JVM arguments. The merged class path holds every entry of the
/// old one and of `classpath`, each once, separated by `:`; the order of the
/// entries is not part of the contract. Nothing changes without `-cp`; an
/// argument list that ends in `-cp` is an error.
pub fn merge_classpath(launch_args: &mut LaunchArgs, classpath: &Vec<String>) -> (r: Result<(), ManifestProcessingError>)
    ensures
        final(launch_args).main_class == old(launch_args).main_class,
        final(launch_args).game_args == old(launch_args).game_args,
        final(launch_args).jvm_args@.len() == old(launch_args).jvm_args@.len(),
        !views(old(launch_args).jvm_args@).contains("-cp"@) ==> final(launch_args).jvm_args@ == old(launch_args).jvm_args@ && r is Ok,
        forall|pos: int| is_first_cp(views(old(launch_args).jvm_args@), pos) ==> {
            &&& pos + 1 >= old(launch_args).jvm_args@.len() ==> (r matches Err(ManifestProcessingError::NoClassPath)) && final(launch_args).jvm_args@ == old(launch_args).jvm_args@
            &&& pos + 1 < old(launch_args).jvm_args@.len() ==> {
                &&& r is Ok
                &&& forall|k: int| 0 <= k < old(launch_args).jvm_args@.len() && k != pos + 1 ==> final(launch_args).jvm_args@[k] == old(launch_args).jvm_args@[k]
                &&& exists|parts: Seq<Seq<char>>| {
                    &&& final(launch_args).jvm_args@[pos + 1]@ == join_with(parts, ":"@)
                    &&& distinct(parts)
                    &&& forall|x: Seq<char>| parts.contains(x) <==> (split_on(old(launch_args).jvm_args@[pos + 1]@, ':').contains(x) || views(classpath@).contains(x))
                }
            }
        },
{
    let n = launch_args.jvm_args.len();
    let found = find_cp(&launch_args.jvm_args);
    let pos = match found {
        None => {
            return Ok(());
        },
        Some(p) => p,
    };
    proof {
        let v = views(old(launch_args).jvm_args@);
        assert forall|q: int| is_first_cp(v, q) implies q == pos by {
            if q < pos {
                assert(v[q] == "-cp"@);
            }
            if q > pos {
                assert(v[pos as int] == "-cp"@);
            }
        }
    }
    if pos + 1 >= n {
        return Err(ManifestProcessingError::NoClassPath);
    }
    let old_parts = split_text(launch_args.jvm_args[pos + 1].as_str(), ':');
    let mut merged: Vec<String> = Vec::new();
    assert(views(merged@) =~= Seq::<Seq<char>>::empty());
    add_missing(&mut merged, &old_parts);
    let ghost first = views(merged@);
    add_missing(&mut merged, classpath);
    let joined = join_strings(&merged, ":");
    launch_args.jvm_args.set(pos + 1, joined);
    proof {
        let parts = views(merged@);
        assert(launch_args.jvm_args@[pos + 1]@ == join_with(parts, ":"@));
        assert(distinct(parts));
        assert(views(old_parts@) == split_on(old(launch_args).jvm_args@[pos + 1]@, ':'));
        assert forall|x: Seq<char>| parts.contains(x) <==> (split_on(old(launch_args).jvm_args@[pos + 1]@, ':').contains(x) || views(classpath@).contains(x)) by {
            assert(parts.contains(x) <==> (first.contains(x) || views(classpath@).contains(x)));
            assert(first.contains(x) <==> (Seq::<Seq<char>>::empty().contains(x) || views(old_parts@).contains(x)));
        }
    }
    Ok(())
}

/// Position of the first `-cp` among `args`.
fn find_cp(args: &Vec<String>) -> (r: Option<usize>)
    ensures
        match r {
            None => !views(args@).contains("-cp"@),
            Some(p) => is_first_cp(views(args@), p as int),
        },
{
    let mut pos: usize = 0;
    while pos < args.len()
        invariant
            pos <= args.len(),
            forall|k: int| 0 <= k < pos ==> views(args@)[k] != "-cp"@,
        decreases args.len() - pos,
    {
        if str_eq(args[pos].as_str(), "-cp") {
            assert(views(args@)[pos as int] == "-cp"@);
            return Some(pos);
        }
        pos = pos + 1;
    }
    None
}

} // verus!
