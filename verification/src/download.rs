//! Downloads: what kind they are, how they are told apart, and how a downloaded
//! file is checked against its SHA-1 and named after its URL.
use vstd::prelude::*;

use crate::bindings::{
    hex_bytes, hex_decode, hex_digit, hex_digit_value, hex_encode, hex_lower, hex_valid, sha1_digest, sha1_of, url_path,
    url_path_of,
};
use crate::collection::CollectionId;
use vstd::string::StringSliceAdditionalSpecFns;
use vstd::utf8::{encode_utf8, is_ascii_chars, is_ascii_chars_encode_utf8};
use crate::text::{find_last_char, last_char_before, lemma_last_char_before_bounds, slice_to_string};

verus! {

/// What a download fetches, with a label to show.
#[derive(Clone, Debug)]
pub enum DownloadType {
    VanillaAssets(String),
    ModLoaderAssets(String),
    ModLoaderProcess(String),
    ModsDownload(String),
}

impl Default for DownloadType {
    /// Vanilla assets with an empty label.
    fn default() -> (r: Self)
        ensures
            r matches DownloadType::VanillaAssets(s) && s@ == Seq::<char>::empty(),
    {
        DownloadType::VanillaAssets(String::new())
    }
}

impl DownloadType {
    /// The download of the vanilla game.
    pub fn vanilla() -> (r: Self)
        ensures
            r matches DownloadType::VanillaAssets(s) && s@ == "Vanilla Downloads"@,
    {
        DownloadType::VanillaAssets(String::from_str("Vanilla Downloads"))
    }

    /// The download of a mod loader's files.
    pub fn mod_loader_assets() -> (r: Self)
        ensures
            r matches DownloadType::ModLoaderAssets(s) && s@ == "Modloader Download"@,
    {
        DownloadType::ModLoaderAssets(String::from_str("Modloader Download"))
    }

    /// The processing step of a mod loader. It is reported under the kind
    /// `ModLoaderAssets`, with its own label.
    pub fn mod_loader_proccess() -> (r: Self)
        ensures
            r matches DownloadType::ModLoaderAssets(s) && s@ == "Modloader Processing"@,
    {
        DownloadType::ModLoaderAssets(String::from_str("Modloader Processing"))
    }

    /// The download of a collection's mods. It is reported under the kind
    /// `ModLoaderAssets`, with its own label.
    pub fn mods_download() -> (r: Self)
        ensures
            r matches DownloadType::ModLoaderAssets(s) && s@ == "Mods Download"@,
    {
        DownloadType::ModLoaderAssets(String::from_str("Mods Download"))
    }

    /// `self` and `download_type` are of the same kind, whatever their labels.
    pub fn is_download_type(&self, download_type: &Self) -> (r: bool)
        ensures
            r == same_kind(*self, *download_type),
    {
        match self {
            DownloadType::VanillaAssets(..) => download_type.is_vanilla_assets(),
            DownloadType::ModLoaderAssets(..) => download_type.is_mod_loader_assets(),
            DownloadType::ModLoaderProcess(..) => download_type.is_mod_loader_process(),
            DownloadType::ModsDownload(..) => download_type.is_mods_download(),
        }
    }

    /// Returns `true` if the download type is `VanillaAssets`.
    pub fn is_vanilla_assets(&self) -> (r: bool)
        ensures
            r == (*self is VanillaAssets),
    {
        matches!(self, DownloadType::VanillaAssets(..))
    }

    /// Returns `true` if the download type is `ModLoaderAssets`.
    pub fn is_mod_loader_assets(&self) -> (r: bool)
        ensures
            r == (*self is ModLoaderAssets),
    {
        matches!(self, DownloadType::ModLoaderAssets(..))
    }

    /// Returns `true` if the download type is `ModLoaderProcess`.
    pub fn is_mod_loader_process(&self) -> (r: bool)
        ensures
            r == (*self is ModLoaderProcess),
    {
        matches!(self, DownloadType::ModLoaderProcess(..))
    }

    /// Returns `true` if the download type is `ModsDownload`.
    pub fn is_mods_download(&self) -> (r: bool)
        ensures
            r == (*self is ModsDownload),
    {
        matches!(self, DownloadType::ModsDownload(..))
    }
}

/// Two download types are of the same kind.
pub open spec fn same_kind(a: DownloadType, b: DownloadType) -> bool {
    match a {
        DownloadType::VanillaAssets(..) => b is VanillaAssets,
        DownloadType::ModLoaderAssets(..) => b is ModLoaderAssets,
        DownloadType::ModLoaderProcess(..) => b is ModLoaderProcess,
        DownloadType::ModsDownload(..) => b is ModsDownload,
    }
}

/// Being of the same kind is an equivalence: reflexive, symmetric and transitive.
pub proof fn law_same_kind_equivalence(a: DownloadType, b: DownloadType, c: DownloadType)
    ensures
        same_kind(a, a),
        same_kind(a, b) ==> same_kind(b, a),
        same_kind(a, b) && same_kind(b, c) ==> same_kind(a, c),
{
}

/// A download of a collection. Downloads are told apart by their collection alone.
#[derive(Clone, Debug)]
pub struct DownloadId {
    pub collection_id: CollectionId,
    pub download_type: DownloadType,
}

impl DownloadId {
    pub fn new(collection_id: CollectionId, download_type: DownloadType) -> (r: Self)
        ensures
            r.collection_id == collection_id,
            r.download_type == download_type,
    {
        DownloadId { collection_id, download_type }
    }
}

impl PartialEq for DownloadId {
    fn eq(&self, other: &Self) -> (r: bool) {
        self.collection_id.0 == other.collection_id.0
    }
}

impl vstd::std_specs::cmp::PartialEqSpecImpl for DownloadId {
    open spec fn obeys_eq_spec() -> bool {
        true
    }

    open spec fn eq_spec(&self, other: &Self) -> bool {
        self.collection_id == other.collection_id
    }
}

impl Eq for DownloadId {}

/// Errors while checking a download.
#[derive(Debug)]
pub enum DownloadError {
    /// The URL could not be parsed.
    Parse { url: String },
    /// The file's hash is not the expected one. The fields are, as reported:
    /// `expected` holds the hash of the file, `get` the hash it should have had.
    HashValidation { expected: String, get: String },
    /// The expected hash is not hexadecimal.
    FromHex { source: hex::FromHexError },
}

/// Errors while naming a file after its URL.
#[derive(Debug)]
pub enum FileNameError {
    UrlParsingIssues { source: url::ParseError, url: String },
    CannotBeBase { url: String },
    AbscenceFilename { url: String },
}

/// The text after the last `/` of `path`.
pub open spec fn last_segment(path: Seq<char>) -> Seq<char> {
    path.subrange(last_char_before(path, '/', path.len() as int) + 1, path.len() as int)
}

/// The URL's path has segments: it starts with `/`.
pub open spec fn has_segments(path: Seq<char>) -> bool {
    path.len() > 0 && path[0] == '/'
}

/// Names a file after the last path segment of `url`. Fails when `url` does not
/// parse, when it cannot be a base (its path does not start with `/`), or when
/// it names no file (its last path segment is empty, as after a trailing `/`).
pub fn extract_filename(url: &str) -> (r: Result<String, FileNameError>)
    ensures
        url_path_of(url@) is None <==> (r matches Err(FileNameError::UrlParsingIssues { .. })),
        r matches Err(FileNameError::UrlParsingIssues { url: u, .. }) ==> u@ == url@,
        (url_path_of(url@) is Some && !has_segments(url_path_of(url@)->0)) <==> (r matches Err(FileNameError::CannotBeBase { .. })),
        r matches Err(FileNameError::CannotBeBase { url: u }) ==> u@ == url@,
        (url_path_of(url@) is Some && has_segments(url_path_of(url@)->0) && last_segment(url_path_of(url@)->0).len() == 0)
            <==> (r matches Err(FileNameError::AbscenceFilename { .. })),
        r matches Err(FileNameError::AbscenceFilename { url: u }) ==> u@ == url@,
        r is Ok <==> (url_path_of(url@) is Some && has_segments(url_path_of(url@)->0) && last_segment(url_path_of(url@)->0).len() > 0),
        r matches Ok(name) ==> name@ == last_segment(url_path_of(url@)->0),
{
    match url_path(url) {
        Err(source) => Err(FileNameError::UrlParsingIssues { source, url: url.to_owned() }),
        Ok(path) => {
            let n = path.as_str().unicode_len();
            if n == 0 || path.as_str().get_char(0) != '/' {
                return Err(FileNameError::CannotBeBase { url: url.to_owned() });
            }
            proof {
                lemma_last_char_before_bounds(path@, '/', n as int);
            }
            match find_last_char(path.as_str(), '/') {
                Some(k) => {
                    if k + 1 == n {
                        Err(FileNameError::AbscenceFilename { url: url.to_owned() })
                    } else {
                        Ok(slice_to_string(path.as_str(), k + 1, n))
                    }
                },
                None => {
                    assert(path@[0] == '/');
                    assert(false);
                    Err(FileNameError::AbscenceFilename { url: url.to_owned() })
                },
            }
        },
    }
}

/// Whether two byte sequences are equal.
fn bytes_equal(a: &[u8], b: &[u8]) -> (r: bool)
    ensures
        r == (a@ == b@),
{
    if a.len() != b.len() {
        return false;
    }
    let mut i: usize = 0;
    while i < a.len()
        invariant
            a@.len() == b@.len(),
            i <= a.len(),
            forall|k: int| 0 <= k < i ==> a@[k] == b@[k],
        decreases a.len() - i,
    {
        if a[i] != b[i] {
            return false;
        }
        i = i + 1;
    }
    assert(a@ =~= b@);
    true
}

/// Checks the contents of a downloaded file against the hexadecimal SHA-1
/// `sha1`. Fails with `FromHex` when `sha1` is not hexadecimal, and with
/// `HashValidation` when the digest differs.
pub fn validate_sha1(contents: &[u8], sha1: &str) -> (r: Result<(), DownloadError>)
    ensures
        r is Ok <==> hex_valid(sha1.spec_bytes()) && sha1_of(contents@) == hex_bytes(sha1.spec_bytes()),
        (r matches Err(DownloadError::FromHex { .. })) <==> !hex_valid(sha1.spec_bytes()),
        r matches Err(DownloadError::HashValidation { expected, get }) ==> expected@ == hex_lower(sha1_of(contents@)) && get@ == sha1@,
        !(r matches Err(DownloadError::Parse { .. })),
{
    let digest = sha1_digest(contents);
    match hex_decode(sha1.as_bytes()) {
        Err(source) => Err(DownloadError::FromHex { source }),
        Ok(decoded) => {
            if !bytes_equal(digest.as_slice(), decoded.as_slice()) {
                Err(DownloadError::HashValidation {
                    expected: hex_encode(digest.as_slice()),
                    get: sha1.to_owned(),
                })
            } else {
                Ok(())
            }
        },
    }
}

/// `contents` have the SHA-1 that `sha1` spells in hexadecimal.
pub open spec fn hash_matches(contents: Seq<u8>, sha1: Seq<char>) -> bool {
    hex_valid(encode_utf8(sha1)) && sha1_of(contents) == hex_bytes(encode_utf8(sha1))
}

/// A file is to be fetched again when it is missing (`contents` is `None`) or
/// does not have the SHA-1 `sha1`.
pub fn needs_fetch(contents: Option<&[u8]>, sha1: &str) -> (r: bool)
    ensures
        r == match contents {
            None => true,
            Some(c) => !hash_matches(c@, sha1@),
        },
{
    match contents {
        None => true,
        Some(c) => validate_sha1(c, sha1).is_err(),
    }
}

/// The SHA-1 digest of a file's contents.
pub fn get_hash(contents: &[u8]) -> (r: Vec<u8>)
    ensures
        r@ == sha1_of(contents@),
        r@.len() == 20,
{
    sha1_digest(contents)
}

/// What to do with one paused-or-running download task.
#[derive(Clone, Copy, Debug, PartialEq, Eq, Structural)]
pub enum ControllerAction {
    Pause,
    Resume,
    Keep,
}

/// Brings a task in line with its download: pause a running task of a paused
/// download, resume a paused task of a running download, else leave it.
pub fn controller_action(download_paused: bool, task_paused: bool) -> (r: ControllerAction)
    ensures
        r == (if download_paused && !task_paused {
            ControllerAction::Pause
        } else if !download_paused && task_paused {
            ControllerAction::Resume
        } else {
            ControllerAction::Keep
        }),
{
    if download_paused && !task_paused {
        ControllerAction::Pause
    } else if !download_paused && task_paused {
        ControllerAction::Resume
    } else {
        ControllerAction::Keep
    }
}

/// How often a failed request is sent again before a download gives up.
pub const RETRY_AMOUNT: u32 = 3;

/// What a download does after sending its request.
#[derive(Clone, Copy, Debug, PartialEq, Eq, Structural)]
pub enum RequestStep {
    /// The request was answered: read the body.
    Proceed,
    /// Wait half a second and send the request again.
    RetryAfterWait,
    /// Give up with the last error.
    GiveUp,
}

/// Decides what follows a request, given whether it was answered and, when it
/// was not, how many requests have failed so far, this one included. A
/// request is sent at most `RETRY_AMOUNT` more times after the first failure.
pub fn request_step(failures: u32, answered: bool) -> (r: RequestStep)
    ensures
        answered ==> r == RequestStep::Proceed,
        !answered && failures <= RETRY_AMOUNT ==> r == RequestStep::RetryAfterWait,
        !answered && failures > RETRY_AMOUNT ==> r == RequestStep::GiveUp,
{
    if answered {
        RequestStep::Proceed
    } else if failures <= RETRY_AMOUNT {
        RequestStep::RetryAfterWait
    } else {
        RequestStep::GiveUp
    }
}

/// The progress counter after a body read broke off: the bytes it had counted
/// for that read are taken back, wrapping around as the counter does.
pub fn rewind_progress(current: usize, received: usize) -> (r: usize)
    ensures
        r == (if current >= received { (current - received) as usize } else { (current - received + usize::MAX + 1) as usize }),
{
    current.wrapping_sub(received)
}

/// A body read that broke off is tried once more with a fresh request; a
/// second break ends the download with an error.
pub fn read_again(breaks: u32) -> (r: bool)
    ensures
        r == (breaks <= 1),
{
    breaks <= 1
}

/// The lowercase hexadecimal digit of a value below 16 is an ASCII character
/// that reads back as that value.
proof fn lemma_hex_digit_round_trip(v: int)
    requires
        0 <= v < 16,
    ensures
        '\0' <= hex_digit(v) <= '\u{7f}',
        hex_digit_value(hex_digit(v) as u8) == v,
{
    if v < 10 {
        assert(hex_digit(v) as int == 48 + v);
    } else {
        assert(hex_digit(v) as int == 97 + v - 10);
    }
}

/// A file checked against the SHA-1 that the library spells for it, in
/// lowercase hexadecimal, passes the check: it is not fetched again.
pub proof fn law_own_hash_validates(contents: Seq<u8>)
    ensures
        hash_matches(contents, hex_lower(sha1_of(contents))),
{
    let d = sha1_of(contents);
    let h = hex_lower(d);
    assert forall|i: int| 0 <= i < h.len() implies '\0' <= #[trigger] h[i] <= '\u{7f}'
        && hex_digit_value(h[i] as u8) == (if i % 2 == 0 { d[i / 2] as int / 16 } else { d[i / 2] as int % 16 }) by {
        lemma_hex_digit_round_trip(if i % 2 == 0 { d[i / 2] as int / 16 } else { d[i / 2] as int % 16 });
    }
    assert(is_ascii_chars(h));
    is_ascii_chars_encode_utf8(h);
    let b = encode_utf8(h);
    assert(hex_valid(b));
    assert forall|j: int| 0 <= j < d.len() implies #[trigger] hex_bytes(b)[j] == d[j] by {
        assert(hex_digit_value(b[2 * j]) == d[j] as int / 16);
        assert(hex_digit_value(b[2 * j + 1]) == d[j] as int % 16);
    }
    assert(hex_bytes(b) =~= d);
}

} // verus!
