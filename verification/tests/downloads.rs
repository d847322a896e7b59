use era_connect::collection::CollectionId;
use era_connect::download::{
    controller_action, extract_filename, get_hash, needs_fetch, read_again, request_step,
    rewind_progress, validate_sha1, ControllerAction, DownloadError, DownloadId, DownloadType,
    FileNameError, RequestStep,
};

const ABC_SHA1: &str = "a9993e364706816aba3e25717850c26c9cd0d89d";

#[test]
fn extract_filename_takes_last_url_segment() {
    assert_eq!(
        extract_filename("https://piston-data.mojang.com/v1/objects/abc/client.jar").unwrap(),
        "client.jar"
    );
}

#[test]
fn extract_filename_fails_without_a_file_name() {
    match extract_filename("https://example.com/dir/") {
        Err(FileNameError::AbscenceFilename { url }) => assert_eq!(url, "https://example.com/dir/"),
        other => panic!("unexpected {other:?}"),
    }
    assert!(matches!(extract_filename("https://example.com"), Err(FileNameError::AbscenceFilename { .. })));
}

#[test]
fn extract_filename_reports_bad_urls() {
    match extract_filename("not a url") {
        Err(FileNameError::UrlParsingIssues { url, .. }) => assert_eq!(url, "not a url"),
        other => panic!("unexpected {other:?}"),
    }
    match extract_filename("mailto:someone@example.com") {
        Err(FileNameError::CannotBeBase { url }) => assert_eq!(url, "mailto:someone@example.com"),
        other => panic!("unexpected {other:?}"),
    }
}

#[test]
fn validate_sha1_accepts_the_right_digest() {
    assert!(validate_sha1(b"abc", ABC_SHA1).is_ok());
    assert!(validate_sha1(b"abc", &ABC_SHA1.to_uppercase()).is_ok());
    assert_eq!(get_hash(b"abc"), hex_bytes(ABC_SHA1));
}

#[test]
fn validate_sha1_reports_mismatch_and_bad_hex() {
    match validate_sha1(b"abcd", ABC_SHA1) {
        Err(DownloadError::HashValidation { expected, get }) => {
            assert_eq!(expected, "81fe8bfe87576c3ecb22426f8e57847382917acf");
            assert_eq!(get, ABC_SHA1);
        }
        other => panic!("unexpected {other:?}"),
    }
    assert!(matches!(validate_sha1(b"abc", "xyz"), Err(DownloadError::FromHex { .. })));
}

#[test]
fn needs_fetch_when_missing_or_wrong() {
    assert!(needs_fetch(None, ABC_SHA1));
    assert!(!needs_fetch(Some(b"abc"), ABC_SHA1));
    assert!(needs_fetch(Some(b"abd"), ABC_SHA1));
}

#[test]
fn request_step_retries_three_times() {
    assert_eq!(request_step(0, true), RequestStep::Proceed);
    assert_eq!(request_step(1, false), RequestStep::RetryAfterWait);
    assert_eq!(request_step(3, false), RequestStep::RetryAfterWait);
    assert_eq!(request_step(4, false), RequestStep::GiveUp);
    assert!(read_again(1));
    assert!(!read_again(2));
}

#[test]
fn rewind_progress_wraps_like_the_counter() {
    assert_eq!(rewind_progress(100, 40), 60);
    assert_eq!(rewind_progress(0, 1), usize::MAX);
}

#[test]
fn download_types_compare_by_kind() {
    let a = DownloadType::vanilla();
    let b = DownloadType::VanillaAssets(String::from("other"));
    let c = DownloadType::mods_download();
    assert!(a.is_download_type(&b));
    assert!(!a.is_download_type(&c));
    assert!(c.is_mod_loader_assets());
    assert!(DownloadType::mod_loader_proccess().is_mod_loader_assets());
    assert!(matches!(DownloadType::mod_loader_assets(), DownloadType::ModLoaderAssets(ref s) if s == "Modloader Download"));
    assert!(c.is_download_type(&DownloadType::mod_loader_assets()));
    assert!(!DownloadType::ModsDownload(String::new()).is_download_type(&c));
    assert!(matches!(DownloadType::default(), DownloadType::VanillaAssets(ref s) if s.is_empty()));
}

#[test]
fn download_ids_are_equal_by_collection() {
    let a = DownloadId::new(CollectionId(3), DownloadType::vanilla());
    let b = DownloadId::new(CollectionId(3), DownloadType::mods_download());
    let c = DownloadId::new(CollectionId(4), DownloadType::vanilla());
    assert!(a == b);
    assert!(a != c);
}

#[test]
fn controller_action_follows_the_download() {
    assert_eq!(controller_action(true, false), ControllerAction::Pause);
    assert_eq!(controller_action(false, true), ControllerAction::Resume);
    assert_eq!(controller_action(true, true), ControllerAction::Keep);
    assert_eq!(controller_action(false, false), ControllerAction::Keep);
}

fn hex_bytes(text: &str) -> Vec<u8> {
    (0..text.len()).step_by(2).map(|i| u8::from_str_radix(&text[i..i + 2], 16).unwrap()).collect()
}

#[test]
fn a_file_passes_the_check_with_its_own_hash() {
    for contents in [&b""[..], &b"abc"[..], &b"hello world"[..]] {
        let own: String = get_hash(contents).iter().map(|b| format!("{b:02x}")).collect();
        assert!(!needs_fetch(Some(contents), &own));
        assert!(validate_sha1(contents, &own).is_ok());
    }
}
