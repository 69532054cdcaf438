use aoi::cover::{
    embed_page, encode_cover, release_group_art, CoverAction, CoverFetch, CoverRef, CoverStage,
};
use aoi::page::art_url_in_page;

const PAGE: &str = r#"<html>"url":"https://image-cdn-ak.spotifycdn.com/image/ab67616d00001e02ff","maxHeight":640,"x":"https://image-cdn-fa.spotifycdn.com/image/ab67616d00001e02aa","maxWidth":300}"#;

#[test]
fn page_scan_finds_fixed_size_image() {
    let url = art_url_in_page(PAGE.as_bytes()).unwrap();
    assert_eq!(url, b"https://image-cdn-fa.spotifycdn.com/image/ab67616d00001e02aa".to_vec());
}

#[test]
fn page_scan_takes_leftmost() {
    let page = r#"a"https://imagex.spotifycdn.com/image/one","maxHeight":300 "https://imagey.spotifycdn.com/image/two","maxWidth":300"#;
    assert_eq!(
        art_url_in_page(page.as_bytes()).unwrap(),
        b"https://imagex.spotifycdn.com/image/one".to_vec()
    );
}

#[test]
fn page_scan_without_match() {
    assert_eq!(art_url_in_page(b""), None);
    assert_eq!(art_url_in_page(b"https://image.spotifycdn.com/image/\",\"maxHeight\":300"), None);
    assert_eq!(art_url_in_page(b"https://images.spotifycdn.com/image/abc\",\"maxHeight\":640"), None);
}

#[test]
fn urls_of_references() {
    assert_eq!(
        release_group_art("rg-1"),
        "https://coverartarchive.org/release-group/rg-1/front-250.jpg"
    );
    assert_eq!(embed_page("album/xyz"), "https://open.spotify.com/embed/album/xyz");
}

#[test]
fn cache_keys_do_not_collide() {
    let a = CoverRef::ReleaseGroupId("x".to_string()).cache_key();
    let b = CoverRef::StreamingPath("x".to_string()).cache_key();
    assert_eq!(a, "release-group:x");
    assert_eq!(b, "spotify:x");
}

#[test]
fn base64_of_cover() {
    assert_eq!(encode_cover(b"hello"), "aGVsbG8=");
    assert_eq!(encode_cover(b""), "");
}

#[test]
fn cached_cover_is_used() {
    let (mut f, a) = CoverFetch::start(CoverRef::ReleaseGroupId("rg".to_string()));
    assert!(matches!(a, CoverAction::LookupCache(ref k) if k == "release-group:rg"));
    let a = f.on_cached(Some("AAAA".to_string()));
    assert!(matches!(a, CoverAction::Finish(Some(ref v)) if v == "AAAA"));
    assert_eq!(f.stage, CoverStage::Finished);
}

#[test]
fn missing_cover_with_failing_network_is_none() {
    let (mut f, _) = CoverFetch::start(CoverRef::ReleaseGroupId("rg".to_string()));
    let a = f.on_cached(None);
    assert!(matches!(a, CoverAction::GetImage(ref u)
        if u == b"https://coverartarchive.org/release-group/rg/front-250.jpg"));
    assert!(matches!(f.on_image(None), CoverAction::Finish(None)));

    let (mut g, _) = CoverFetch::start(CoverRef::StreamingPath("album/1".to_string()));
    let a = g.on_cached(None);
    assert!(matches!(a, CoverAction::GetPage(ref u) if u == "https://open.spotify.com/embed/album/1"));
    assert!(matches!(g.on_page(None), CoverAction::Finish(None)));
}

#[test]
fn streaming_cover_is_scraped_encoded_and_stored() {
    let (mut f, _) = CoverFetch::start(CoverRef::StreamingPath("album/1".to_string()));
    f.on_cached(None);
    let a = f.on_page(Some(PAGE.as_bytes()));
    assert!(matches!(a, CoverAction::GetImage(ref u)
        if u == b"https://image-cdn-fa.spotifycdn.com/image/ab67616d00001e02aa"));
    let a = f.on_image(Some(b"hello"));
    assert!(matches!(a, CoverAction::StoreAndFinish(ref k, ref v)
        if k == "spotify:album/1" && v == "aGVsbG8="));
}

#[test]
fn page_without_image_ends_without_cover() {
    let (mut f, _) = CoverFetch::start(CoverRef::StreamingPath("p".to_string()));
    f.on_cached(None);
    assert!(matches!(f.on_page(Some(b"<html></html>")), CoverAction::Finish(None)));
}
