//! Collections as the native front end keeps them: one file per collection,
//! named after it.
use vstd::prelude::*;

use crate::paths::{join_path, path_join};

verus! {

/// The mod loaders the native front end knows.
#[derive(Clone, Copy, Debug, PartialEq, Eq, Structural)]
pub enum ModLoaderType {
    Forge,
    NeoForge,
    Fabric,
    Quilt,
}

/// A collection's mod loader and its version.
#[derive(Debug)]
pub struct ModLoader {
    pub modloader_type: ModLoaderType,
    pub version: String,
}

/// Settings of a collection beyond its game version; none yet.
#[derive(Clone, Copy, Debug, PartialEq, Eq, Structural)]
pub struct AdvancedOptions {}

/// A collection. Times are nanoseconds since the Unix epoch; the time played
/// is in seconds.
#[derive(Debug)]
pub struct Collection {
    pub display_name: String,
    pub minecraft_version: String,
    pub mod_loader: Option<ModLoader>,
    pub created_at: i128,
    pub updated_at: i128,
    pub played_time: i64,
    pub advanced_options: AdvancedOptions,
}

/// The directory collections are kept in, relative to the data directory.
pub fn base_path() -> (r: String)
    ensures
        r@ == "collections"@,
{
    String::from_str("collections")
}

impl Collection {
    /// Where the collection is kept: `collections/<display name>`, relative to
    /// the data directory.
    pub fn get_path(&self) -> (r: String)
        ensures
            r@ == path_join("collections"@, self.display_name@),
    {
        join_path("collections", self.display_name.as_str())
    }
}

/// The names of the files of `collections`: their display names, in order.
pub fn file_names(collections: &Vec<Collection>) -> (r: Vec<String>)
    ensures
        r@.len() == collections@.len(),
        forall|i: int| 0 <= i < r@.len() ==> #[trigger] r@[i] == collections@[i].display_name,
{
    let mut out: Vec<String> = Vec::new();
    let mut i: usize = 0;
    while i < collections.len()
        invariant
            i <= collections@.len(),
            out@.len() == i,
            forall|k: int| 0 <= k < i ==> #[trigger] out@[k] == collections@[k].display_name,
        decreases collections@.len() - i,
    {
        out.push(collections[i].display_name.clone());
        i = i + 1;
    }
    out
}

} // verus!
