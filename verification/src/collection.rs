//! Collections: a game version with an optional mod loader and its mods, kept
//! in a directory of their own.
use vstd::prelude::*;

use crate::bindings::{
    forbidden_in_names, is_ascii_alphanumeric, random_alphanumeric, strip_forbidden, to_uppercase, uppercase_of,
    without_forbidden,
};
use crate::launcher::LaunchArgs;
use crate::mod_manager::ModManager;
use crate::paths::{join_path, path_join};
use crate::storage::collections_base_path;
use crate::text::{decimal, decimal_text, str_eq};
use crate::version::VersionMetadata;

verus! {

/// The mod loaders a collection can use.
#[derive(Clone, Copy, Debug, PartialEq, Eq, Structural)]
pub enum ModLoaderType {
    Forge,
    NeoForge,
    Fabric,
    Quilt,
}

/// The name a mod loader type is shown and searched by.
pub open spec fn loader_type_name(t: ModLoaderType) -> Seq<char> {
    match t {
        ModLoaderType::Forge => "Forge"@,
        ModLoaderType::NeoForge => "NeoForge"@,
        ModLoaderType::Fabric => "Fabric"@,
        ModLoaderType::Quilt => "Quilt"@,
    }
}

impl ModLoaderType {
    /// The name of the loader type; see `loader_type_name`.
    pub fn name(&self) -> (r: &'static str)
        ensures
            r@ == loader_type_name(*self),
    {
        match self {
            ModLoaderType::Forge => "Forge",
            ModLoaderType::NeoForge => "NeoForge",
            ModLoaderType::Fabric => "Fabric",
            ModLoaderType::Quilt => "Quilt",
        }
    }
}

/// Identifies a collection.
#[derive(Clone, Copy, Debug, PartialEq, Eq, Structural)]
pub struct CollectionId(pub u64);

impl CollectionId {
    /// The id in decimal.
    pub fn to_string(&self) -> (r: String)
        ensures
            r@ == decimal(self.0 as nat),
    {
        decimal_text(self.0)
    }
}

/// The mod loader of a collection.
#[derive(Debug)]
pub struct ModLoader {
    pub mod_loader_type: ModLoaderType,
    pub version: Option<String>,
}

impl ModLoader {
    pub fn new(mod_loader_type: ModLoaderType, version: Option<String>) -> (r: Self)
        ensures
            r.mod_loader_type == mod_loader_type,
            r.version == version,
    {
        ModLoader { mod_loader_type, version }
    }

    /// An equal copy.
    pub fn duplicate(&self) -> (r: Self)
        ensures
            r == *self,
    {
        ModLoader {
            mod_loader_type: self.mod_loader_type,
            version: match &self.version {
                Some(v) => Some(v.clone()),
                None => None,
            },
        }
    }

    /// The loader as it is shown: the name of its type.
    pub fn to_string(&self) -> (r: String)
        ensures
            r@ == loader_type_name(self.mod_loader_type),
    {
        String::from_str(self.mod_loader_type.name())
    }
}

/// Settings of a collection beyond its game version.
#[derive(Clone, Copy, Debug, PartialEq, Eq, Structural)]
pub struct AdvancedOptions {
    /// The most memory the game may use, in MiB.
    pub jvm_max_memory: Option<usize>,
}

/// A collection's mod loader and the manager of its mods.
#[derive(Debug)]
pub struct ModController {
    pub loader: ModLoader,
    pub manager: ModManager,
}

impl ModController {
    pub fn new(loader: ModLoader, manager: ModManager) -> (r: Self)
        ensures
            r.loader == loader,
            r.manager == manager,
    {
        ModController { loader, manager }
    }
}

/// A collection. Times are nanoseconds since the Unix epoch, the time played
/// is in seconds, and paths are held as text.
#[derive(Debug)]
pub struct Collection {
    pub display_name: String,
    pub minecraft_version: VersionMetadata,
    pub mod_controller: Option<ModController>,
    pub created_at: i128,
    pub updated_at: i128,
    pub played_time: i64,
    pub advanced_options: Option<AdvancedOptions>,
    pub picture_path: String,
    pub entry_path: String,
    pub launch_args: Option<LaunchArgs>,
}

/// The game directory of a collection whose directory is `entry`.
pub open spec fn game_directory_of(entry: Seq<char>) -> Seq<char> {
    path_join(entry, "minecraft_root"@)
}

/// The directory of mod icons of a collection whose directory is `entry`.
pub open spec fn icon_directory_of(entry: Seq<char>) -> Seq<char> {
    path_join(entry, "mod_images"@)
}

impl Collection {
    /// A new collection in the directory `entry_path`, made at `now`. With a
    /// mod loader it gets a mod manager with no mods, placing mods in its game
    /// directory and icons in `mod_images`. It has not been played and has no
    /// launch arguments yet.
    pub fn create(
        display_name: String,
        version_metadata: VersionMetadata,
        mod_loader: Option<ModLoader>,
        picture_path: String,
        advanced_options: Option<AdvancedOptions>,
        entry_path: String,
        now: i128,
    ) -> (r: Self)
        ensures
            r.display_name == display_name,
            r.minecraft_version == version_metadata,
            r.created_at == now,
            r.updated_at == now,
            r.played_time == 0,
            r.advanced_options == advanced_options,
            r.picture_path == picture_path,
            r.entry_path == entry_path,
            r.launch_args is None,
            mod_loader is None ==> r.mod_controller is None,
            mod_loader matches Some(l) ==> (r.mod_controller matches Some(c) && {
                &&& c.loader == l
                &&& c.manager.mods@.len() == 0
                &&& c.manager.cache is None
                &&& c.manager.game_directory@ == game_directory_of(entry_path@)
                &&& c.manager.icon_directory@ == icon_directory_of(entry_path@)
                &&& c.manager.mod_loader == l
                &&& c.manager.target_game_version == version_metadata
            }),
    {
        let mod_controller = match mod_loader {
            None => None,
            Some(loader) => {
                let manager = ModManager::new(
                    join_path(entry_path.as_str(), "minecraft_root"),
                    join_path(entry_path.as_str(), "mod_images"),
                    loader.duplicate(),
                    version_metadata.duplicate(),
                );
                Some(ModController::new(loader, manager))
            },
        };
        Collection {
            display_name,
            minecraft_version: version_metadata,
            mod_controller,
            created_at: now,
            updated_at: now,
            played_time: 0,
            advanced_options,
            entry_path,
            launch_args: None,
            picture_path,
        }
    }

    pub fn display_name(&self) -> (r: &String)
        ensures
            *r == self.display_name,
    {
        &self.display_name
    }

    pub fn minecraft_version(&self) -> (r: &VersionMetadata)
        ensures
            *r == self.minecraft_version,
    {
        &self.minecraft_version
    }

    pub fn mod_controller(&self) -> (r: Option<&ModController>)
        ensures
            match self.mod_controller {
                Some(c) => r == Some(&c),
                None => r is None,
            },
    {
        match &self.mod_controller {
            Some(c) => Some(c),
            None => None,
        }
    }

    pub fn created_at(&self) -> (r: i128)
        ensures
            r == self.created_at,
    {
        self.created_at
    }

    pub fn updated_at(&self) -> (r: i128)
        ensures
            r == self.updated_at,
    {
        self.updated_at
    }

    pub fn advanced_options(&self) -> (r: Option<AdvancedOptions>)
        ensures
            r == self.advanced_options,
    {
        self.advanced_options
    }

    pub fn picture_path(&self) -> (r: &str)
        ensures
            r@ == self.picture_path@,
    {
        self.picture_path.as_str()
    }

    pub fn entry_path(&self) -> (r: &str)
        ensures
            r@ == self.entry_path@,
    {
        self.entry_path.as_str()
    }

    /// The directory the game runs in: `minecraft_root` in the collection's directory.
    pub fn game_directory(&self) -> (r: String)
        ensures
            r@ == game_directory_of(self.entry_path@),
    {
        join_path(self.entry_path.as_str(), "minecraft_root")
    }

    /// The collection's mod loader, if it has one.
    pub fn mod_loader(&self) -> (r: Option<&ModLoader>)
        ensures
            match self.mod_controller {
                Some(c) => r == Some(&c.loader),
                None => r is None,
            },
    {
        match &self.mod_controller {
            Some(c) => Some(&c.loader),
            None => None,
        }
    }

    /// The manager of the collection's mods, if it has a mod loader.
    pub fn mod_manager(&self) -> (r: Option<&ModManager>)
        ensures
            match self.mod_controller {
                Some(c) => r == Some(&c.manager),
                None => r is None,
            },
    {
        match &self.mod_controller {
            Some(c) => Some(&c.manager),
            None => None,
        }
    }

    /// The collection's mod loader, to be changed in place, if it has one.
    pub fn mod_loader_mut(&mut self) -> (r: Option<&mut ModLoader>)
        ensures
            old(self).mod_controller is None ==> r is None && *final(self) == *old(self),
            old(self).mod_controller matches Some(c) ==> (r matches Some(l) && {
                &&& *l == c.loader
                &&& final(self).mod_controller == Some(
                    ModController { loader: *final(l), manager: c.manager },
                )
                &&& final(self).display_name == old(self).display_name
                &&& final(self).minecraft_version == old(self).minecraft_version
                &&& final(self).created_at == old(self).created_at
                &&& final(self).updated_at == old(self).updated_at
                &&& final(self).played_time == old(self).played_time
                &&& final(self).advanced_options == old(self).advanced_options
                &&& final(self).picture_path == old(self).picture_path
                &&& final(self).entry_path == old(self).entry_path
                &&& final(self).launch_args == old(self).launch_args
            }),
    {
        match &mut self.mod_controller {
            Some(c) => Some(&mut c.loader),
            None => None,
        }
    }

    /// The manager of the collection's mods, to be changed in place, if it
    /// has a mod loader.
    pub fn mod_manager_mut(&mut self) -> (r: Option<&mut ModManager>)
        ensures
            old(self).mod_controller is None ==> r is None && *final(self) == *old(self),
            old(self).mod_controller matches Some(c) ==> (r matches Some(m) && {
                &&& *m == c.manager
                &&& final(self).mod_controller == Some(
                    ModController { loader: c.loader, manager: *final(m) },
                )
                &&& final(self).display_name == old(self).display_name
                &&& final(self).minecraft_version == old(self).minecraft_version
                &&& final(self).created_at == old(self).created_at
                &&& final(self).updated_at == old(self).updated_at
                &&& final(self).played_time == old(self).played_time
                &&& final(self).advanced_options == old(self).advanced_options
                &&& final(self).picture_path == old(self).picture_path
                &&& final(self).entry_path == old(self).entry_path
                &&& final(self).launch_args == old(self).launch_args
            }),
    {
        match &mut self.mod_controller {
            Some(c) => Some(&mut c.manager),
            None => None,
        }
    }

    /// The directory that holds every collection: `collections` in the data
    /// directory.
    pub fn get_base_path(data_dir: &str) -> (r: String)
        ensures
            r@ == path_join(data_dir@, "collections"@),
    {
        collections_base_path(data_dir)
    }

    /// The game is to be downloaded (and checked) before a launch: the
    /// collection has no launch arguments yet.
    pub fn needs_download(&self) -> (r: bool)
        ensures
            r == self.launch_args is None,
    {
        self.launch_args.is_none()
    }

    /// Keeps the launch arguments a download produced.
    pub fn set_launch_args(&mut self, launch_args: LaunchArgs)
        ensures
            final(self).launch_args == Some(launch_args),
            final(self).display_name == old(self).display_name,
            final(self).minecraft_version == old(self).minecraft_version,
            final(self).mod_controller == old(self).mod_controller,
            final(self).created_at == old(self).created_at,
            final(self).updated_at == old(self).updated_at,
            final(self).played_time == old(self).played_time,
            final(self).advanced_options == old(self).advanced_options,
            final(self).picture_path == old(self).picture_path,
            final(self).entry_path == old(self).entry_path,
    {
        self.launch_args = Some(launch_args);
    }
}

/// The names Windows reserves for devices.
pub open spec fn is_reserved_name(s: Seq<char>) -> bool {
    ||| s == "CON"@ ||| s == "PRN"@ ||| s == "AUX"@ ||| s == "NUL"@
    ||| s == "COM1"@ ||| s == "COM2"@ ||| s == "COM3"@ ||| s == "COM4"@ ||| s == "COM5"@
    ||| s == "COM6"@ ||| s == "COM7"@ ||| s == "COM8"@ ||| s == "COM9"@
    ||| s == "LPT1"@ ||| s == "LPT2"@ ||| s == "LPT3"@ ||| s == "LPT4"@ ||| s == "LPT5"@
    ||| s == "LPT6"@ ||| s == "LPT7"@ ||| s == "LPT8"@ ||| s == "LPT9"@
}

/// Whether `s` is a name Windows reserves.
fn reserved(s: &str) -> (r: bool)
    ensures
        r == is_reserved_name(s@),
{
    str_eq(s, "CON") || str_eq(s, "PRN") || str_eq(s, "AUX") || str_eq(s, "NUL")
        || str_eq(s, "COM1") || str_eq(s, "COM2") || str_eq(s, "COM3") || str_eq(s, "COM4")
        || str_eq(s, "COM5") || str_eq(s, "COM6") || str_eq(s, "COM7") || str_eq(s, "COM8")
        || str_eq(s, "COM9") || str_eq(s, "LPT1") || str_eq(s, "LPT2") || str_eq(s, "LPT3")
        || str_eq(s, "LPT4") || str_eq(s, "LPT5") || str_eq(s, "LPT6") || str_eq(s, "LPT7")
        || str_eq(s, "LPT8") || str_eq(s, "LPT9")
}

/// `s` is five ASCII letters and digits.
pub open spec fn is_random_suffix(s: Seq<char>) -> bool {
    s.len() == 5 && forall|i: int| 0 <= i < 5 ==> is_ascii_alphanumeric(#[trigger] s[i])
}

/// The name of the directory of a collection shown as `display_name`: the
/// display name without the characters Windows forbids in names, with `_`
/// appended when it is a reserved name in upper case; five random letters and
/// digits when nothing is left.
pub fn collection_dir_name(display_name: &str) -> (r: String)
    ensures
        ({
            let base = without_forbidden(display_name@);
            &&& base.len() == 0 ==> is_random_suffix(r@)
            &&& base.len() > 0 ==> r@ == (if is_reserved_name(uppercase_of(base)) { base + "_"@ } else { base })
        }),
        r@.len() > 0,
        forall|i: int| 0 <= i < r@.len() ==> !forbidden_in_names(#[trigger] r@[i]),
{
    proof {
        reveal_strlit("_");
    }
    let mut dir_name = strip_forbidden(display_name);
    proof {
        let pred = |c: char| !forbidden_in_names(c);
        assert forall|i: int| 0 <= i < dir_name@.len() implies !forbidden_in_names(#[trigger] dir_name@[i]) by {
            display_name@.lemma_filter_pred(pred, i);
        }
    }
    if dir_name.as_str().unicode_len() == 0 {
        let r = random_alphanumeric(5);
        assert forall|i: int| 0 <= i < r@.len() implies !forbidden_in_names(#[trigger] r@[i]) by {
            assert(is_ascii_alphanumeric(r@[i]));
        }
        return r;
    }
    let upper = to_uppercase(dir_name.as_str());
    if reserved(upper.as_str()) {
        dir_name.append("_");
    }
    dir_name
}

/// Another name for a directory whose name is taken: `dir_name`, `_` and five
/// random letters and digits.
pub fn duplicate_dir_name(dir_name: &str) -> (r: String)
    ensures
        r@.len() == dir_name@.len() + 6,
        r@.subrange(0, dir_name@.len() as int) == dir_name@,
        r@[dir_name@.len() as int] == '_',
        is_random_suffix(r@.subrange(dir_name@.len() + 1int, r@.len() as int)),
{
    let mut out = dir_name.to_owned();
    let sep = "_";
    proof {
        reveal_strlit("_");
    }
    out.append(sep);
    let suffix = random_alphanumeric(5);
    out.append(suffix.as_str());
    assert(out@.subrange(0, dir_name@.len() as int) =~= dir_name@);
    assert(out@.subrange(dir_name@.len() + 1int, out@.len() as int) =~= suffix@);
    out
}

} // verus!
