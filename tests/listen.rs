use aoi::cover::CoverRef;
use aoi::listen::{
    streaming_path, ListenAction, ListenData, ListenMetadata, ListenPayload, ListenResolver,
    ListenStage,
};
use aoi::widget::{resolved_listen, PipelineError};

fn payload(release: Option<&str>, recording: Option<&str>, album: Option<&str>) -> ListenPayload {
    ListenPayload {
        title: "Song".to_string(),
        artist: "Band".to_string(),
        release_mbid: release.map(|s| s.to_string()),
        recording_mbid: recording.map(|s| s.to_string()),
        spotify_album: album.map(|s| s.to_string()),
    }
}

#[test]
fn no_history_is_not_found() {
    let (mut r, a) = ListenResolver::new();
    assert!(matches!(a, ListenAction::FetchCurrent));
    let a = r.on_listens(Some(vec![]));
    assert!(matches!(a, ListenAction::FetchRecent));
    let a = r.on_listens(Some(vec![]));
    assert!(matches!(a, ListenAction::NoHistory));
    assert_eq!(r.stage, ListenStage::NoHistory);
    assert!(matches!(resolved_listen(a), Some(Err(PipelineError::NoListenHistory))));
}

#[test]
fn failed_fetches_are_not_found() {
    let (mut r, _) = ListenResolver::new();
    assert!(matches!(r.on_listens(None), ListenAction::FetchRecent));
    assert!(matches!(r.on_listens(None), ListenAction::NoHistory));
}

#[test]
fn current_listen_resolves_release_group_in_one_lookup() {
    let (mut r, _) = ListenResolver::new();
    let a = r.on_listens(Some(vec![payload(Some("abc-123"), None, None)]));
    assert!(matches!(a, ListenAction::ReleaseGroupByRelease(ref id) if id == "abc-123"));
    let a = r.on_catalog(Some("rg-1".to_string()));
    match a {
        ListenAction::Found(l, live) => {
            assert!(live);
            assert_eq!(l.title, "Song");
            assert_eq!(l.artist, "Band");
            assert_eq!(l.cover_ref(), Some(CoverRef::ReleaseGroupId("rg-1".to_string())));
        }
        _ => panic!("listen not found"),
    }
}

#[test]
fn past_listen_resolves_release_group_in_two_lookups() {
    let (mut r, _) = ListenResolver::new();
    assert!(matches!(r.on_listens(Some(vec![])), ListenAction::FetchRecent));
    let a = r.on_listens(Some(vec![payload(None, Some("rec-9"), None)]));
    assert!(matches!(a, ListenAction::ReleaseByRecording(ref id) if id == "rec-9"));
    let a = r.on_catalog(Some("rel-5".to_string()));
    assert!(matches!(a, ListenAction::ReleaseGroupByRelease(ref id) if id == "rel-5"));
    match r.on_catalog(Some("rg-1".to_string())) {
        ListenAction::Found(l, live) => {
            assert!(!live);
            assert_eq!(l.cover_ref(), Some(CoverRef::ReleaseGroupId("rg-1".to_string())));
        }
        _ => panic!("listen not found"),
    }
}

#[test]
fn failed_catalog_lookup_keeps_listen() {
    let (mut r, _) = ListenResolver::new();
    r.on_listens(Some(vec![payload(
        Some("abc-123"),
        None,
        Some("https://open.spotify.com/album/xyz"),
    )]));
    match r.on_catalog(None) {
        ListenAction::Found(l, live) => {
            assert!(live);
            assert_eq!(l.title, "Song");
            assert_eq!(l.cover_ref(), Some(CoverRef::StreamingPath("album/xyz".to_string())));
        }
        _ => panic!("listen not found"),
    }
}

#[test]
fn listen_without_catalog_ids_is_found_at_once() {
    let (mut r, _) = ListenResolver::new();
    match r.on_listens(Some(vec![payload(None, None, None)])) {
        ListenAction::Found(l, live) => {
            assert!(live);
            assert_eq!(l.cover_ref(), None);
        }
        _ => panic!("listen not found"),
    }
}

#[test]
fn streaming_prefix_is_stripped() {
    assert_eq!(streaming_path("https://open.spotify.com/album/abc"), "album/abc");
    assert_eq!(streaming_path("album/abc"), "album/abc");
    assert_eq!(streaming_path("https://open.spotify.com/"), "");
    assert_eq!(streaming_path("https://open.spotify"), "https://open.spotify");
}

#[test]
fn release_group_takes_precedence() {
    let l = ListenData {
        title: "t".to_string(),
        artist: "a".to_string(),
        metadata: Some(ListenMetadata {
            release_group: Some("rg".to_string()),
            spotify_path: Some("album/1".to_string()),
        }),
    };
    assert_eq!(l.cover_ref(), Some(CoverRef::ReleaseGroupId("rg".to_string())));
    let none = ListenData { title: "t".to_string(), artist: "a".to_string(), metadata: None };
    assert_eq!(none.cover_ref(), None);
}
