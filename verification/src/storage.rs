//! Where the launcher keeps its files: the data directory, the shared game
//! files, and the JSON files of its settings and collections.
use vstd::prelude::*;

use crate::paths::{join_path, path_join};

verus! {

/// The file the global settings are kept in.
pub const GLOBAL_SETTINGS_FILENAME: &'static str = "global_setings.json";

/// The file each collection is kept in, inside its directory.
pub const COLLECTION_FILE_NAME: &'static str = "collection.json";

/// A file of the launcher's storage: its name and the directory it is kept
/// in, relative to the data directory (or absolute).
#[derive(Debug)]
pub struct StorageLoader {
    pub file_name: String,
    pub base_path: String,
}

impl StorageLoader {
    pub fn new(file_name: String, base_path: String) -> (r: Self)
        ensures
            r.file_name == file_name,
            r.base_path == base_path,
    {
        StorageLoader { file_name, base_path }
    }

    /// The directory of the file: its base path under the data directory.
    pub fn get_storage_directory(&self, data_dir: &str) -> (r: String)
        ensures
            r@ == path_join(data_dir@, self.base_path@),
    {
        join_path(data_dir, self.base_path.as_str())
    }

    /// The path of the file.
    pub fn get_path_buf(&self, data_dir: &str) -> (r: String)
        ensures
            r@ == path_join(path_join(data_dir@, self.base_path@), self.file_name@),
    {
        let dir = self.get_storage_directory(data_dir);
        join_path(dir.as_str(), self.file_name.as_str())
    }
}

/// The directory of the game files all collections share: `shared` in the data directory.
pub fn get_global_shared_path(data_dir: &str) -> (r: String)
    ensures
        r@ == path_join(data_dir@, "shared"@),
{
    join_path(data_dir, "shared")
}

/// The directory the settings files are kept in, relative to the data directory.
pub fn storage_base_path() -> (r: String)
    ensures
        r@ == "storages"@,
{
    String::from_str("storages")
}

/// The directory that holds the collections: `collections` in the data directory.
pub fn collections_base_path(data_dir: &str) -> (r: String)
    ensures
        r@ == path_join(data_dir@, "collections"@),
{
    join_path(data_dir, "collections")
}

/// What loading a settings file with a default does.
#[derive(Clone, Copy, Debug, PartialEq, Eq, Structural)]
pub enum LoadStep {
    /// Read the file.
    Read,
    /// Save the default value to the file and use it.
    SaveDefault,
}

/// A missing file is replaced by the default value; an existing one is read.
pub fn load_with_default_step(exists: bool) -> (r: LoadStep)
    ensures
        r == (if exists { LoadStep::Read } else { LoadStep::SaveDefault }),
{
    if exists {
        LoadStep::Read
    } else {
        LoadStep::SaveDefault
    }
}

} // verus!
