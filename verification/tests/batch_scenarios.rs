use rusteer::batch::BatchItem;
use rusteer::batch::run_batch;
use rusteer::download::TransferOutcome;
use rusteer::errors::RusteerError;
use rusteer::models::Track;
use rusteer::quality::DownloadQuality;
use rusteer::quality::FormatAvailability;
use rusteer::service::RusteerService;
use rusteer::session::AuthReply;

fn track(id: &str, title: &str) -> Track {
    Track {
        id: id.to_string(),
        title: title.to_string(),
        artists: vec!["Daft Punk".to_string()],
        album: "Discovery".to_string(),
        cover_url: Some("https://img.example/cover.jpg".to_string()),
    }
}

fn item(id: &str, title: &str, avail: FormatAvailability, transfer: TransferOutcome) -> BatchItem {
    BatchItem { descriptor: track(id, title), availability: avail, transfer }
}

fn mp3_only() -> FormatAvailability {
    FormatAvailability { flac: false, mp3_320: true, mp3_128: true }
}

fn no_formats() -> FormatAvailability {
    FormatAvailability { flac: false, mp3_320: false, mp3_128: false }
}

#[test]
fn album_with_two_unavailable_tracks_still_completes() {
    let service = RusteerService::new();
    let mut items = Vec::new();
    for i in 0..10 {
        let avail = if i == 3 || i == 7 { no_formats() } else { mp3_only() };
        items.push(item(
            &format!("12345-{}", i),
            &format!("Track {}", i),
            avail,
            TransferOutcome::Delivered(1000 + i),
        ));
    }
    let r = service
        .download_album(AuthReply::Granted, Ok(items), "albums/12345", DownloadQuality::Mp3_320)
        .unwrap();
    assert_eq!(r.successful.len(), 8);
    assert_eq!(r.failed.len(), 2);
    assert_eq!(r.directory, "albums/12345");
    for f in &r.failed {
        assert!(!f.title.is_empty());
        assert!(!f.error.is_empty());
    }
    assert_eq!(r.failed[0].title, "Track 3");
    assert_eq!(r.failed[1].title, "Track 7");
    for s in &r.successful {
        assert_eq!(s.quality, DownloadQuality::Mp3_320);
    }
}

#[test]
fn batch_accounts_for_every_item() {
    let items = vec![
        item("a", "A", mp3_only(), TransferOutcome::Delivered(10)),
        item("b", "B", no_formats(), TransferOutcome::Delivered(20)),
        item("c", "C", mp3_only(), TransferOutcome::NetworkFailure("boom".to_string())),
        item("d", "D", mp3_only(), TransferOutcome::Delivered(40)),
    ];
    let n = items.len();
    let r = run_batch(&items, DownloadQuality::Flac, "music");
    assert_eq!(r.successful.len() + r.failed.len(), n);
    assert_eq!(r.successful.len(), 2);
    assert_eq!(r.failed.len(), 2);
}

#[test]
fn batch_directory_is_the_requested_one_even_when_all_fail() {
    let items = vec![
        item("a", "A", no_formats(), TransferOutcome::Delivered(10)),
        item("b", "B", no_formats(), TransferOutcome::Delivered(20)),
    ];
    let r = run_batch(&items, DownloadQuality::Flac, "target/dir");
    assert_eq!(r.directory, "target/dir");
    assert_eq!(r.successful.len(), 0);
    assert_eq!(r.failed.len(), 2);
}

#[test]
fn empty_batch_is_a_complete_empty_aggregate() {
    let r = run_batch(&Vec::new(), DownloadQuality::Mp3_128, "music");
    assert_eq!(r.successful.len(), 0);
    assert_eq!(r.failed.len(), 0);
    assert_eq!(r.directory, "music");
}

#[test]
fn every_failure_kind_becomes_an_entry() {
    let items = vec![
        item("a", "A", mp3_only(), TransferOutcome::NotFound("gone".to_string())),
        item("b", "B", mp3_only(), TransferOutcome::NetworkFailure("boom".to_string())),
        item("c", "C", mp3_only(), TransferOutcome::DecodeFailure("bad frame".to_string())),
        item("d", "D", mp3_only(), TransferOutcome::WriteFailure("disk full".to_string())),
        item("e", "E", mp3_only(), TransferOutcome::Delivered(0)),
    ];
    let r = run_batch(&items, DownloadQuality::Mp3_320, "music");
    assert_eq!(r.successful.len(), 0);
    assert_eq!(r.failed.len(), 5);
    assert_eq!(r.failed[0].error, "not found: gone");
    assert_eq!(r.failed[1].error, "network error: boom");
    assert_eq!(r.failed[2].error, "decode error: bad frame");
    assert_eq!(r.failed[3].error, "i/o error: disk full");
    assert_eq!(r.failed[4].error, "i/o error: no bytes were written");
}

#[test]
fn batch_keeps_order_and_position_suffixes() {
    let items = vec![
        item("a", "Alpha", mp3_only(), TransferOutcome::Delivered(1)),
        item("b", "Alpha", mp3_only(), TransferOutcome::Delivered(2)),
        item("c", "Gamma", mp3_only(), TransferOutcome::Delivered(3)),
    ];
    let r = run_batch(&items, DownloadQuality::Mp3_320, "music");
    assert_eq!(r.successful.len(), 3);
    assert_eq!(r.successful[0].path, "music/Alpha_0.mp3");
    assert_eq!(r.successful[1].path, "music/Alpha_1.mp3");
    assert_eq!(r.successful[2].path, "music/Gamma_2.mp3");
    assert_eq!(r.successful[0].size, 1);
    assert_eq!(r.successful[1].size, 2);
    assert_eq!(r.successful[2].size, 3);
}

#[test]
fn eleven_or_more_items_render_two_digit_positions() {
    let mut items = Vec::new();
    for i in 0..12 {
        items.push(item(&format!("t{}", i), "Same Title", mp3_only(), TransferOutcome::Delivered(5)));
    }
    let r = run_batch(&items, DownloadQuality::Mp3_128, "m");
    assert_eq!(r.successful.len(), 12);
    assert_eq!(r.successful[11].path, "m/Same Title_11.mp3");
    assert_eq!(r.successful[10].path, "m/Same Title_10.mp3");
}

#[test]
fn playlist_resolution_failure_aborts_the_call() {
    let service = RusteerService::new();
    let r = service.download_playlist(
        AuthReply::Granted,
        Err("playlist not found".to_string()),
        "music",
        DownloadQuality::Mp3_320,
    );
    match r {
        Err(RusteerError::DeezerError(m)) => assert_eq!(m, "playlist not found"),
        _ => panic!("a failed enumeration must abort the batch call"),
    }
}

#[test]
fn playlist_refused_auth_aborts_the_call() {
    let service = RusteerService::new();
    let r = service.download_playlist(
        AuthReply::Refused("Bad credentials".to_string()),
        Ok(Vec::new()),
        "music",
        DownloadQuality::Mp3_320,
    );
    assert!(r.is_err());
}

#[test]
fn playlist_per_item_failures_do_not_abort() {
    let service = RusteerService::new();
    let items = vec![
        item("a", "A", mp3_only(), TransferOutcome::Delivered(11)),
        item("b", "B", mp3_only(), TransferOutcome::NetworkFailure("reset".to_string())),
    ];
    let r = service
        .download_playlist(AuthReply::Granted, Ok(items), "lists/9", DownloadQuality::Mp3_320)
        .unwrap();
    assert_eq!(r.successful.len(), 1);
    assert_eq!(r.failed.len(), 1);
    assert_eq!(r.directory, "lists/9");
    assert_eq!(r.failed[0].title, "B");
}
