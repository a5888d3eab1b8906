use modpack_installer::{check_digest, check_published_digest, DownloadSession, InstallError};

const ABC_SHA256: &str = "ba7816bf8f01cfea414140de5dae2223b00361a396177a9cb410ff61f20015ad";

#[test]
fn digest_of_payload_matches() {
    assert!(check_digest(b"abc", ABC_SHA256).is_ok());
}

#[test]
fn digest_text_is_trimmed_and_case_free() {
    let upper = format!("  {}\n", ABC_SHA256.to_uppercase());
    assert!(check_digest(b"abc", &upper).is_ok());
}

#[test]
fn every_single_byte_mutation_mismatches() {
    let body = b"abc".to_vec();
    for i in 0..body.len() {
        let mut changed = body.clone();
        changed[i] ^= 0x01;
        let r = check_digest(&changed, ABC_SHA256);
        assert!(matches!(r, Err(InstallError::HashMismatch)));
    }
}

#[test]
fn malformed_digest_text_is_format_error() {
    assert!(matches!(check_digest(b"abc", "xyz"), Err(InstallError::Format(_))));
    assert!(matches!(check_digest(b"abc", "abc"), Err(InstallError::Format(_))));
}

#[test]
fn published_digest_compares_bytes() {
    assert!(check_published_digest(&vec![0xab, 0x01], "ab01").is_ok());
    assert!(matches!(check_published_digest(&vec![0xab, 0x02], "ab01"), Err(InstallError::HashMismatch)));
}

#[test]
fn session_verifies_whole_body() {
    let mut s = DownloadSession::new("Pack", Some(3), true);
    s.on_chunk(b"a");
    s.on_chunk(b"bc");
    assert!(s.verify(ABC_SHA256).is_ok());
    let mut t = DownloadSession::new("Pack", Some(3), true);
    t.on_chunk(b"abd");
    assert!(matches!(t.verify(ABC_SHA256), Err(InstallError::HashMismatch)));
}

#[test]
fn session_progress_is_capped_by_total() {
    let mut s = DownloadSession::new("Pack", Some(200), false);
    assert_eq!(s.progress(), Some(0));
    assert_eq!(s.on_chunk(&[0u8; 50]), Some(250000));
    assert_eq!(s.on_chunk(&[0u8; 100]), Some(750000));
    assert_eq!(s.on_chunk(&[0u8; 100]), Some(1000000));
}

#[test]
fn session_without_total_reports_no_fraction() {
    let mut s = DownloadSession::new("Pack", None, false);
    assert_eq!(s.on_chunk(&[1u8; 10]), None);
    let mut z = DownloadSession::new("Pack", Some(0), false);
    assert_eq!(z.on_chunk(&[1u8; 10]), None);
}

#[test]
fn session_message_names_download() {
    let s = DownloadSession::new("Modpack: Colony", Some(1), false);
    assert_eq!(s.message(), "Downloading Modpack: Colony");
}
