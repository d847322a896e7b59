//! The game's assets: where the asset index is kept, where each object is
//! fetched from and stored, and which objects are to be fetched.
use vstd::prelude::*;

use crate::modloader::ManifestProcessingError;
use crate::paths::{join_path, path_join};

verus! {

/// The asset index a version manifest points to.
#[derive(Debug)]
pub struct AssetIndex {
    pub url: String,
    pub id: String,
    pub sha1: String,
    pub size: usize,
    pub total_size: usize,
}

/// One entry of the asset index's `objects`, with the fields the index gives
/// it (`None` where a field is missing or of another kind).
#[derive(Debug)]
pub struct AssetEntry {
    pub size: Option<u64>,
    pub hash: Option<String>,
}

/// The objects to fetch, as parallel lists: URL, SHA-1, path and size.
#[derive(Debug)]
pub struct AssetSettings {
    pub asset_download_list: Vec<String>,
    pub asset_download_hash: Vec<String>,
    pub asset_download_path: Vec<String>,
    pub asset_download_size: Vec<usize>,
}

/// The first two characters of `hash`, or all of it when it is shorter.
pub open spec fn hash_prefix(hash: Seq<char>) -> Seq<char> {
    if hash.len() <= 2 {
        hash
    } else {
        hash.subrange(0, 2)
    }
}

/// Where the asset object with SHA-1 `hash` is fetched from.
pub open spec fn asset_url(hash: Seq<char>) -> Seq<char> {
    "https://resources.download.minecraft.net/"@ + hash_prefix(hash) + "/"@ + hash
}

/// Where the asset object with SHA-1 `hash` is stored under `folder`.
pub open spec fn asset_path(folder: Seq<char>, hash: Seq<char>) -> Seq<char> {
    path_join(folder, "objects/"@ + hash_prefix(hash) + "/"@ + hash)
}

/// Where the asset index `id` is stored under `folder`.
pub open spec fn index_path(folder: Seq<char>, id: Seq<char>) -> Seq<char> {
    path_join(folder, "indexes/"@ + id + ".json"@)
}

/// The first two characters of `hash`, or all of it when it is shorter.
fn prefix_of(hash: &str) -> (r: String)
    ensures
        r@ == hash_prefix(hash@),
{
    let n = hash.unicode_len();
    if n <= 2 {
        hash.to_owned()
    } else {
        hash.substring_char(0, 2).to_owned()
    }
}

/// `a`, then `b`, `c` and `d` appended.
fn concat4(a: &str, b: &str, c: &str, d: &str) -> (r: String)
    ensures
        r@ == a@ + b@ + c@ + d@,
{
    let mut out = a.to_owned();
    out.append(b);
    out.append(c);
    out.append(d);
    out
}

/// Where the asset index is stored under `folder`; see `index_path`.
pub fn asset_index_path(folder: &str, asset_index: &AssetIndex) -> (r: String)
    ensures
        r@ == index_path(folder@, asset_index.id@),
{
    let rel = concat4("indexes/", asset_index.id.as_str(), ".json", "");
    assert(rel@ =~= "indexes/"@ + asset_index.id@ + ".json"@) by {
        reveal_strlit("");
    }
    join_path(folder, rel.as_str())
}

/// Where the object with SHA-1 `hash` is fetched from; see `asset_url`.
pub fn asset_url_of(hash: &str) -> (r: String)
    ensures
        r@ == asset_url(hash@),
{
    let prefix = prefix_of(hash);
    concat4("https://resources.download.minecraft.net/", prefix.as_str(), "/", hash)
}

/// Where the object with SHA-1 `hash` is stored under `folder`; see `asset_path`.
pub fn asset_path_of(folder: &str, hash: &str) -> (r: String)
    ensures
        r@ == asset_path(folder@, hash@),
{
    let prefix = prefix_of(hash);
    let rel = concat4("objects/", prefix.as_str(), "/", hash);
    join_path(folder, rel.as_str())
}

/// Every entry has both a size and a hash.
pub open spec fn entries_complete(entries: Seq<AssetEntry>) -> bool {
    forall|i: int| 0 <= i < entries.len() ==> (#[trigger] entries[i]).size is Some && entries[i].hash is Some
}

/// Position of the first entry without a size or a hash; `None` when all have both.
pub open spec fn first_incomplete(entries: Seq<AssetEntry>, k: int) -> bool {
    &&& 0 <= k < entries.len()
    &&& (entries[k].size is None || entries[k].hash is None)
    &&& forall|j: int| 0 <= j < k ==> (#[trigger] entries[j]).size is Some && entries[j].hash is Some
}

/// Lists the objects of the asset index to fetch into `folder`: for each entry,
/// in order, its URL, SHA-1, path and size. Fails with `ManifestLookUp` when the
/// index has no `objects` (`None`) or an entry lacks its size or its hash; the
/// key names the first missing field.
pub fn extract_assets(objects: Option<Vec<AssetEntry>>, folder: &str) -> (r: Result<AssetSettings, ManifestProcessingError>)
    ensures
        objects is None ==> (r matches Err(ManifestProcessingError::ManifestLookUp { key }) && key@ == "asset_index_contet[objects]"@),
        objects matches Some(entries) ==> {
            &&& entries_complete(entries@) <==> r is Ok
            &&& forall|k: int| #[trigger] first_incomplete(entries@, k) ==> (r matches Err(ManifestProcessingError::ManifestLookUp { key }) && key@ == (
                if entries@[k].size is None { "asset_objects[_][size]"@ } else { "asset_objects[_][hash]"@ }))
            &&& r matches Ok(s) ==> {
                &&& s.asset_download_list@.len() == entries@.len()
                &&& s.asset_download_hash@.len() == entries@.len()
                &&& s.asset_download_path@.len() == entries@.len()
                &&& s.asset_download_size@.len() == entries@.len()
                &&& forall|i: int| 0 <= i < entries@.len() ==> {
                    let h = (#[trigger] entries@[i]).hash->0@;
                    &&& s.asset_download_list@[i]@ == asset_url(h)
                    &&& s.asset_download_hash@[i]@ == h
                    &&& s.asset_download_path@[i]@ == asset_path(folder@, h)
                    &&& s.asset_download_size@[i] == (#[verifier::truncate] (entries@[i].size->0 as usize))
                }
            }
        },
{
    let entries = match &objects {
        None => {
            return Err(ManifestProcessingError::ManifestLookUp { key: String::from_str("asset_index_contet[objects]") });
        },
        Some(e) => e,
    };
    let mut list: Vec<String> = Vec::new();
    let mut hashes: Vec<String> = Vec::new();
    let mut paths: Vec<String> = Vec::new();
    let mut sizes: Vec<usize> = Vec::new();
    let mut i: usize = 0;
    while i < entries.len()
        invariant
            objects == Some(*entries),
            i <= entries@.len(),
            forall|j: int| 0 <= j < i ==> (#[trigger] entries@[j]).size is Some && entries@[j].hash is Some,
            list@.len() == i,
            hashes@.len() == i,
            paths@.len() == i,
            sizes@.len() == i,
            forall|j: int| 0 <= j < i ==> {
                let h = (#[trigger] entries@[j]).hash->0@;
                &&& list@[j]@ == asset_url(h)
                &&& hashes@[j]@ == h
                &&& paths@[j]@ == asset_path(folder@, h)
                &&& sizes@[j] == (#[verifier::truncate] (entries@[j].size->0 as usize))
            },
        decreases entries@.len() - i,
    {
        let e = &entries[i];
        let size = match e.size {
            None => {
                proof {
                    assert forall|k: int| #[trigger] first_incomplete(entries@, k) implies k == i by {
                        if k > i {
                            assert(entries@[i as int].size is Some);
                        }
                    }
                }
                return Err(ManifestProcessingError::ManifestLookUp { key: String::from_str("asset_objects[_][size]") });
            },
            Some(s) => #[verifier::truncate] (s as usize),
        };
        let hash = match &e.hash {
            None => {
                proof {
                    assert forall|k: int| #[trigger] first_incomplete(entries@, k) implies k == i by {
                        if k > i {
                            assert(entries@[i as int].hash is Some);
                        }
                    }
                }
                return Err(ManifestProcessingError::ManifestLookUp { key: String::from_str("asset_objects[_][hash]") });
            },
            Some(h) => h,
        };
        list.push(asset_url_of(hash.as_str()));
        hashes.push(hash.clone());
        paths.push(asset_path_of(folder, hash.as_str()));
        sizes.push(size);
        i = i + 1;
    }
    Ok(AssetSettings {
        asset_download_list: list,
        asset_download_hash: hashes,
        asset_download_path: paths,
        asset_download_size: sizes,
    })
}

/// `t + s` as `usize::wrapping_add` gives it.
pub open spec fn wrap_add(t: usize, s: usize) -> usize {
    if t + s > usize::MAX {
        (t + s - usize::MAX - 1) as usize
    } else {
        (t + s) as usize
    }
}

/// The total of the sizes whose entry of `fetch` is set, as a counter that
/// wraps around adds them up.
pub open spec fn fetched_total(sizes: Seq<usize>, fetch: Seq<bool>) -> usize
    decreases sizes.len(),
{
    if sizes.len() == 0 {
        0
    } else {
        let t = fetched_total(sizes.drop_last(), fetch.take(sizes.len() - 1));
        if fetch[sizes.len() - 1] {
            wrap_add(t, sizes.last())
        } else {
            t
        }
    }
}

/// Adds up the sizes of the objects to fetch, wrapping around as the
/// download counter does.
pub fn total_to_fetch(sizes: &Vec<usize>, fetch: &Vec<bool>) -> (r: usize)
    requires
        sizes@.len() == fetch@.len(),
    ensures
        r == fetched_total(sizes@, fetch@),
{
    let mut total: usize = 0;
    let mut i: usize = 0;
    while i < sizes.len()
        invariant
            i <= sizes@.len(),
            sizes@.len() == fetch@.len(),
            total == fetched_total(sizes@.take(i as int), fetch@.take(i as int)),
        decreases sizes@.len() - i,
    {
        assert(sizes@.take(i + 1).drop_last() =~= sizes@.take(i as int));
        assert(fetch@.take(i + 1).take(i as int) =~= fetch@.take(i as int));
        if fetch[i] {
            total = total.wrapping_add(sizes[i]);
        }
        i = i + 1;
    }
    assert(sizes@.take(sizes@.len() as int) =~= sizes@);
    assert(fetch@.take(fetch@.len() as int) =~= fetch@);
    total
}

} // verus!
