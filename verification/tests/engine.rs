use rusteer::download::TransferOutcome;
use rusteer::download::download_with_session;
use rusteer::errors::AuthenticationError;
use rusteer::errors::RusteerError;
use rusteer::models::Track;
use rusteer::quality::DownloadQuality;
use rusteer::quality::FormatAvailability;
use rusteer::service::RusteerService;
use rusteer::session::AuthReply;
use rusteer::session::Session;
use rusteer::session::verify_outcome;
use rusteer::session::SessionMode;
use rusteer::streaming::UrlReply;

fn track(id: &str, title: &str, artists: &[&str]) -> Track {
    Track {
        id: id.to_string(),
        title: title.to_string(),
        artists: artists.iter().map(|a| a.to_string()).collect(),
        album: "Discovery".to_string(),
        cover_url: None,
    }
}

fn all_formats() -> FormatAvailability {
    FormatAvailability { flac: true, mp3_320: true, mp3_128: true }
}

fn no_formats() -> FormatAvailability {
    FormatAvailability { flac: false, mp3_320: false, mp3_128: false }
}

#[test]
fn verify_arl_granted_is_true() {
    let service = RusteerService::new();
    let r = service.verify_arl(AuthReply::Granted);
    assert!(matches!(r, Ok(true)));
}

#[test]
fn verify_arl_bad_credentials_is_false() {
    let service = RusteerService::new();
    let r = service.verify_arl(AuthReply::Refused("Bad credentials given".to_string()));
    assert!(matches!(r, Ok(false)));
}

#[test]
fn verify_arl_401_is_false() {
    let service = RusteerService::new();
    let r = service.verify_arl(AuthReply::Refused("server said: 401 Unauthorized".to_string()));
    assert!(matches!(r, Ok(false)));
}

#[test]
fn verify_arl_transport_failure_is_error() {
    let service = RusteerService::new();
    let r = service.verify_arl(AuthReply::Refused("connection timed out".to_string()));
    match r {
        Err(RusteerError::DeezerError(m)) => assert_eq!(m, "connection timed out"),
        _ => panic!("a transport failure must surface as an error"),
    }
}

#[test]
fn verify_outcome_coerces_exactly_the_credential_classes() {
    assert!(matches!(verify_outcome(Ok(())), Ok(true)));
    assert!(matches!(
        verify_outcome(Err(AuthenticationError::InvalidCredentials)),
        Ok(false)
    ));
    assert!(matches!(
        verify_outcome(Err(AuthenticationError::ExpiredCredentials)),
        Ok(false)
    ));
    match verify_outcome(Err(AuthenticationError::Transport("proxy down".to_string()))) {
        Err(AuthenticationError::Transport(m)) => assert_eq!(m, "proxy down"),
        _ => panic!("a transport failure must stay an error"),
    }
}

#[test]
fn authenticate_granted_builds_session() {
    let s = Session::authenticate(
        "arl-token".to_string(),
        AuthReply::Granted,
        SessionMode::Persistent,
        DownloadQuality::Flac,
    )
    .unwrap();
    assert_eq!(s.credential, "arl-token");
    assert!(matches!(s.mode, SessionMode::Persistent));
    assert_eq!(s.quality, DownloadQuality::Flac);
}

#[test]
fn authenticate_bad_credentials_is_invalid() {
    let r = Session::authenticate(
        "arl-token".to_string(),
        AuthReply::Refused("401".to_string()),
        SessionMode::Ephemeral,
        DownloadQuality::Mp3_320,
    );
    assert!(matches!(r, Err(AuthenticationError::InvalidCredentials)));
}

#[test]
fn authenticate_other_failure_is_transport() {
    let r = Session::authenticate(
        "arl-token".to_string(),
        AuthReply::Refused("tls handshake failed".to_string()),
        SessionMode::Ephemeral,
        DownloadQuality::Mp3_320,
    );
    match r {
        Err(AuthenticationError::Transport(m)) => assert_eq!(m, "tls handshake failed"),
        _ => panic!("an unclassified failure must be a transport error"),
    }
}

#[test]
fn set_quality_moves_only_the_preference() {
    let mut s = Session::authenticate(
        "arl-token".to_string(),
        AuthReply::Granted,
        SessionMode::Ephemeral,
        DownloadQuality::Flac,
    )
    .unwrap();
    s.set_quality(DownloadQuality::Mp3_128);
    assert_eq!(s.quality, DownloadQuality::Mp3_128);
    assert_eq!(s.credential, "arl-token");
    assert!(matches!(s.mode, SessionMode::Ephemeral));
}

#[test]
fn search_returns_at_most_the_limit() {
    let service = RusteerService::new();
    let mut found = Vec::new();
    for i in 0..35 {
        found.push(track(&format!("t{}", i), &format!("Daft Track {}", i), &["Daft Punk"]));
    }
    let r = service.search_tracks(AuthReply::Granted, found, 30).unwrap();
    assert_eq!(r.len(), 30);
    for (i, t) in r.iter().enumerate() {
        assert!(!t.id.is_empty());
        assert!(!t.title.is_empty());
        assert_eq!(t.id, format!("t{}", i));
    }
}

#[test]
fn search_keeps_fewer_results_whole() {
    let service = RusteerService::new();
    let found = vec![track("t1", "One More Time", &["Daft Punk"])];
    let r = service.search_tracks(AuthReply::Granted, found, 30).unwrap();
    assert_eq!(r.len(), 1);
    assert_eq!(r[0].title, "One More Time");
}

#[test]
fn search_refused_auth_is_error() {
    let service = RusteerService::new();
    let r = service.search_tracks(AuthReply::Refused("down".to_string()), Vec::new(), 30);
    match r {
        Err(RusteerError::DeezerError(m)) => assert_eq!(m, "down"),
        _ => panic!("a refused authentication must abort the search"),
    }
}

#[test]
fn flac_request_falls_back_to_mp3_320() {
    let service = RusteerService::new();
    let avail = FormatAvailability { flac: false, mp3_320: true, mp3_128: true };
    let r = service
        .download_track(
            AuthReply::Granted,
            &track("t1", "Aerodynamic", &["Daft Punk"]),
            &avail,
            &TransferOutcome::Delivered(4096),
            "music",
            DownloadQuality::Flac,
        )
        .unwrap();
    assert_eq!(r.quality, DownloadQuality::Mp3_320);
    assert_eq!(r.size, 4096);
}

#[test]
fn download_builds_path_and_metadata() {
    let service = RusteerService::new();
    let r = service
        .download_track(
            AuthReply::Granted,
            &track("t1", "Digital Love", &["Daft Punk", "Guest"]),
            &all_formats(),
            &TransferOutcome::Delivered(123),
            "out",
            DownloadQuality::Flac,
        )
        .unwrap();
    assert_eq!(r.path, "out/Digital Love_0.flac");
    assert_eq!(r.quality, DownloadQuality::Flac);
    assert_eq!(r.size, 123);
    assert_eq!(r.title, "Digital Love");
    assert_eq!(r.artist, "Daft Punk, Guest");
}

#[test]
fn no_available_tier_is_an_error() {
    let service = RusteerService::new();
    let r = service.download_track(
        AuthReply::Granted,
        &track("t1", "Voyager", &["Daft Punk"]),
        &no_formats(),
        &TransferOutcome::Delivered(10),
        "music",
        DownloadQuality::Flac,
    );
    match r {
        Err(RusteerError::DeezerError(m)) => {
            assert_eq!(m, "Voyager: no requested audio quality is available")
        },
        _ => panic!("a track with no offered tier must fail"),
    }
}

#[test]
fn empty_delivery_is_an_io_error() {
    let service = RusteerService::new();
    let r = service.download_track(
        AuthReply::Granted,
        &track("t1", "Veridis Quo", &["Daft Punk"]),
        &all_formats(),
        &TransferOutcome::Delivered(0),
        "music",
        DownloadQuality::Mp3_320,
    );
    match r {
        Err(RusteerError::DeezerError(m)) => {
            assert_eq!(m, "Veridis Quo: i/o error: no bytes were written")
        },
        _ => panic!("an empty write must fail"),
    }
}

#[test]
fn session_quality_is_a_ceiling() {
    let mut session = Session::authenticate(
        "arl-token".to_string(),
        AuthReply::Granted,
        SessionMode::Persistent,
        DownloadQuality::Flac,
    )
    .unwrap();
    session.set_quality(DownloadQuality::Mp3_320);
    let avail = FormatAvailability { flac: true, mp3_320: false, mp3_128: true };
    let r = download_with_session(
        &session,
        &track("t1", "Face to Face", &["Daft Punk"]),
        &avail,
        &TransferOutcome::Delivered(77),
        "music",
        0,
    )
    .unwrap();
    // Flac is offered but above the session's tier; the result falls below it.
    assert_eq!(r.quality, DownloadQuality::Mp3_128);
}

#[test]
fn streaming_two_calls_resolve_the_same_track_and_tier() {
    let service = RusteerService::new();
    let avail = all_formats();
    let first = service
        .get_streaming_url(
            AuthReply::Granted,
            "t1",
            &avail,
            UrlReply::Issued("https://cdn.example/one".to_string()),
            DownloadQuality::Mp3_320,
        )
        .unwrap();
    let second = service
        .get_streaming_url(
            AuthReply::Granted,
            "t1",
            &avail,
            UrlReply::Issued("https://cdn.example/two".to_string()),
            DownloadQuality::Mp3_320,
        )
        .unwrap();
    assert_eq!(first.track_id, "t1");
    assert_eq!(second.track_id, "t1");
    assert_eq!(first.quality, DownloadQuality::Mp3_320);
    assert_eq!(second.quality, DownloadQuality::Mp3_320);
    assert_eq!(first.format, "MP3_320");
    assert_eq!(second.format, "MP3_320");
    assert_ne!(first.url, second.url);
}

#[test]
fn streaming_without_any_tier_is_an_error() {
    let service = RusteerService::new();
    let r = service.get_streaming_url(
        AuthReply::Granted,
        "t9",
        &no_formats(),
        UrlReply::Issued("https://cdn.example/x".to_string()),
        DownloadQuality::Flac,
    );
    match r {
        Err(RusteerError::DeezerError(m)) => {
            assert_eq!(m, "t9: no requested audio quality is available")
        },
        _ => panic!("no offered tier must fail the URL request"),
    }
}

#[test]
fn artists_joined_in_order() {
    let t = track("t1", "Something About Us", &["First", "Second", "Third"]);
    assert_eq!(t.artists_joined(", "), "First, Second, Third");
}

#[test]
fn artists_joined_single_name() {
    let t = track("t1", "Motherboard", &["Daft Punk"]);
    assert_eq!(t.artists_joined(", "), "Daft Punk");
}

#[test]
fn artists_joined_empty_list() {
    let t = track("t1", "Untitled", &[]);
    assert_eq!(t.artists_joined(", "), "");
}
