use vstd::prelude::*;

use base64::Engine;

use crate::options::opt_view;
use crate::page::art_url_in_page;

verus! {

/// Where the artwork of a listen is found.
#[derive(Clone, Debug, PartialEq, Eq)]
pub enum CoverRef {
    /// A release group of the music catalog.
    ReleaseGroupId(String),
    /// An album path of the streaming service, without the service's prefix.
    StreamingPath(String),
}

/// The cover-art cache key of a reference. The two kinds of reference live
/// under distinct prefixes, so they never share a key.
pub open spec fn cover_key_of(c: CoverRef) -> Seq<char> {
    match c {
        CoverRef::ReleaseGroupId(id) => "release-group:"@ + id@,
        CoverRef::StreamingPath(p) => "spotify:"@ + p@,
    }
}

/// The front cover image of a release group in the cover art archive.
pub open spec fn release_group_art_url(id: Seq<char>) -> Seq<char> {
    "https://coverartarchive.org/release-group/"@ + id + "/front-250.jpg"@
}

/// The streaming service's embed page of an album path.
pub open spec fn embed_page_url(path: Seq<char>) -> Seq<char> {
    "https://open.spotify.com/embed/"@ + path
}

/// The standard, padded base64 text of some bytes.
pub uninterp spec fn base64_of(b: Seq<u8>) -> Seq<char>;

/// Relies on base64's `STANDARD` engine `encode`: the padded standard base64
/// text of the bytes, which depends on the bytes alone. It panics only when
/// the text's length overflows, which the bound rules out.
#[verifier::external_body]
fn encode_base64(b: &[u8]) -> (r: String)
    requires
        b@.len() <= usize::MAX / 2,
    ensures
        r@ == base64_of(b@),
        b@.len() == 0 ==> r@.len() == 0,
{
    base64::engine::general_purpose::STANDARD.encode(b)
}

/// Encodes the bytes of a cover image for a data URI.
pub fn encode_cover(image: &[u8]) -> (r: String)
    requires
        image@.len() <= usize::MAX / 2,
    ensures
        r@ == base64_of(image@),
{
    encode_base64(image)
}

impl CoverRef {
    /// The key of the reference in the cover-art cache.
    pub fn cache_key(&self) -> (r: String)
        ensures
            r@ == cover_key_of(*self),
    {
        match self {
            CoverRef::ReleaseGroupId(id) => String::from_str("release-group:").concat(id.as_str()),
            CoverRef::StreamingPath(p) => String::from_str("spotify:").concat(p.as_str()),
        }
    }
}

/// The URL of the front cover of a release group.
pub fn release_group_art(id: &str) -> (r: String)
    ensures
        r@ == release_group_art_url(id@),
{
    String::from_str("https://coverartarchive.org/release-group/").concat(id).concat(
        "/front-250.jpg",
    )
}

/// The URL of the streaming service's embed page of an album.
pub fn embed_page(path: &str) -> (r: String)
    ensures
        r@ == embed_page_url(path@),
{
    String::from_str("https://open.spotify.com/embed/").concat(path)
}

/// How far the fetch of one cover has come.
#[derive(Clone, Copy, Debug, PartialEq, Eq, Structural)]
pub enum CoverStage {
    /// Waiting for the cover-art cache's answer.
    Lookup,
    /// Waiting for the streaming service's embed page.
    AwaitPage,
    /// Waiting for the image itself.
    AwaitImage,
    /// Done; the last action said with what.
    Finished,
}

/// What the caller does next for a cover fetch.
#[derive(Clone, Debug)]
pub enum CoverAction {
    /// Look up this key in the cover-art cache, and report with `on_cached`.
    LookupCache(String),
    /// Fetch this embed page, and report with `on_page`.
    GetPage(String),
    /// Fetch the image at the URL with these bytes, and report with `on_image`.
    GetImage(Vec<u8>),
    /// Store the encoded image under the key, then use it as the cover.
    StoreAndFinish(String, String),
    /// The fetch is over, with this encoded image or with none.
    Finish(Option<String>),
}

/// The mathematical value of a `CoverAction`.
pub enum CoverActionView {
    LookupCache(Seq<char>),
    GetPage(Seq<char>),
    GetImage(Seq<u8>),
    StoreAndFinish(Seq<char>, Seq<char>),
    Finish(Option<Seq<char>>),
}

impl CoverAction {
    pub open spec fn view(&self) -> CoverActionView {
        match self {
            CoverAction::LookupCache(k) => CoverActionView::LookupCache(k@),
            CoverAction::GetPage(u) => CoverActionView::GetPage(u@),
            CoverAction::GetImage(u) => CoverActionView::GetImage(u@),
            CoverAction::StoreAndFinish(k, v) => CoverActionView::StoreAndFinish(k@, v@),
            CoverAction::Finish(v) => CoverActionView::Finish(opt_view(*v)),
        }
    }
}

/// The fetch of the artwork behind one reference: the cache first; on a miss
/// the archive's front cover for a release group, or for a streaming path the
/// first fixed-size album image of its embed page. Every failure ends the
/// fetch without artwork; nothing is raised.
#[derive(Clone, Debug)]
pub struct CoverFetch {
    pub cover: CoverRef,
    pub stage: CoverStage,
}

/// The step taken on the cache's answer.
pub open spec fn after_cached(c: CoverRef, stage: CoverStage, hit: Option<Seq<char>>) -> (
    CoverStage,
    CoverActionView,
) {
    if stage != CoverStage::Lookup {
        (CoverStage::Finished, CoverActionView::Finish(None))
    } else {
        match hit {
            Some(v) => (CoverStage::Finished, CoverActionView::Finish(Some(v))),
            None => match c {
                CoverRef::ReleaseGroupId(id) => (
                    CoverStage::AwaitImage,
                    CoverActionView::GetImage(vstd::utf8::encode_utf8(release_group_art_url(id@))),
                ),
                CoverRef::StreamingPath(p) => (
                    CoverStage::AwaitPage,
                    CoverActionView::GetPage(embed_page_url(p@)),
                ),
            },
        }
    }
}

/// Whether a page holds a fixed-size album image URL, the first one being `u`.
pub open spec fn first_art_url(page: Seq<u8>, u: Seq<u8>) -> bool {
    exists|i: int, e: int|
        {
            &&& crate::page::art_url_at(page, i, e)
            &&& u == page.subrange(i, e)
            &&& forall|i2: int, e2: int| 0 <= i2 < i ==> !crate::page::art_url_at(page, i2, e2)
        }
}

/// Whether a page holds no fixed-size album image URL.
pub open spec fn no_art_url(page: Seq<u8>) -> bool {
    forall|i: int, e: int| !crate::page::art_url_at(page, i, e)
}

/// The step taken on the image's bytes, or on a failed fetch.
pub open spec fn after_image(c: CoverRef, stage: CoverStage, image: Option<Seq<u8>>) -> (
    CoverStage,
    CoverActionView,
) {
    match image {
        Some(b) => if stage == CoverStage::AwaitImage && b.len() <= usize::MAX / 2 {
            (CoverStage::Finished, CoverActionView::StoreAndFinish(cover_key_of(c), base64_of(b)))
        } else {
            (CoverStage::Finished, CoverActionView::Finish(None))
        },
        None => (CoverStage::Finished, CoverActionView::Finish(None)),
    }
}

impl CoverFetch {
    /// Starts the fetch of a cover by looking it up in the cache.
    pub fn start(cover: CoverRef) -> (r: (CoverFetch, CoverAction))
        ensures
            r.0.cover == cover,
            r.0.stage == CoverStage::Lookup,
            r.1@ == CoverActionView::LookupCache(cover_key_of(cover)),
    {
        let key = cover.cache_key();
        (CoverFetch { cover, stage: CoverStage::Lookup }, CoverAction::LookupCache(key))
    }

    /// Takes the cache's answer: a hit ends the fetch with the cached image; a
    /// miss fetches the archive's image or the streaming service's page.
    pub fn on_cached(&mut self, hit: Option<String>) -> (r: CoverAction)
        ensures
            final(self).cover == old(self).cover,
            (final(self).stage, r@) == after_cached(old(self).cover, old(self).stage, opt_view(hit)),
    {
        if self.stage != CoverStage::Lookup {
            self.stage = CoverStage::Finished;
            return CoverAction::Finish(None);
        }
        match hit {
            Some(v) => {
                self.stage = CoverStage::Finished;
                CoverAction::Finish(Some(v))
            },
            None => match &self.cover {
                CoverRef::ReleaseGroupId(id) => {
                    let url = release_group_art(id.as_str());
                    self.stage = CoverStage::AwaitImage;
                    CoverAction::GetImage(url.as_str().as_bytes_vec())
                },
                CoverRef::StreamingPath(p) => {
                    let url = embed_page(p.as_str());
                    self.stage = CoverStage::AwaitPage;
                    CoverAction::GetPage(url)
                },
            },
        }
    }

    /// Takes the embed page, or `None` when it could not be fetched: the
    /// page's first fixed-size album image is fetched next; without one the
    /// fetch ends without artwork.
    pub fn on_page(&mut self, page: Option<&[u8]>) -> (r: CoverAction)
        ensures
            final(self).cover == old(self).cover,
            match page {
                Some(p) if old(self).stage == CoverStage::AwaitPage => {
                    ||| (no_art_url(p@) && final(self).stage == CoverStage::Finished
                        && r@ == CoverActionView::Finish(None))
                    ||| (exists|u: Seq<u8>|
                        first_art_url(p@, u) && final(self).stage == CoverStage::AwaitImage
                            && r@ == CoverActionView::GetImage(u))
                },
                _ => final(self).stage == CoverStage::Finished && r@ == CoverActionView::Finish(None),
            },
    {
        if self.stage != CoverStage::AwaitPage {
            self.stage = CoverStage::Finished;
            return CoverAction::Finish(None);
        }
        match page {
            Some(p) => match art_url_in_page(p) {
                Some(u) => {
                    assert(first_art_url(p@, u@));
                    self.stage = CoverStage::AwaitImage;
                    CoverAction::GetImage(u)
                },
                None => {
                    self.stage = CoverStage::Finished;
                    CoverAction::Finish(None)
                },
            },
            None => {
                self.stage = CoverStage::Finished;
                CoverAction::Finish(None)
            },
        }
    }

    /// Takes the image's bytes, or `None` when they could not be fetched: the
    /// encoded image is stored under the reference's key and used; a failure
    /// ends the fetch without artwork.
    pub fn on_image(&mut self, image: Option<&[u8]>) -> (r: CoverAction)
        ensures
            final(self).cover == old(self).cover,
            (final(self).stage, r@) == after_image(
                old(self).cover,
                old(self).stage,
                match image {
                    Some(b) => Some(b@),
                    None => None,
                },
            ),
    {
        let stage = self.stage;
        self.stage = CoverStage::Finished;
        match image {
            Some(b) => if stage == CoverStage::AwaitImage && b.len() <= usize::MAX / 2 {
                let encoded = encode_cover(b);
                CoverAction::StoreAndFinish(self.cover.cache_key(), encoded)
            } else {
                CoverAction::Finish(None)
            },
            None => CoverAction::Finish(None),
        }
    }
}

/// A cover that is not cached and whose fetch fails ends without artwork:
/// the failure is never raised past the fetch, for either kind of reference.
pub proof fn lemma_failed_fetch_yields_none(c: CoverRef)
    ensures
        after_cached(c, CoverStage::Lookup, None).0 == CoverStage::AwaitImage ==> after_image(
            c,
            CoverStage::AwaitImage,
            None,
        ) == (CoverStage::Finished, CoverActionView::Finish(None)),
        after_cached(c, CoverStage::Lookup, None).0 == CoverStage::AwaitPage || after_cached(
            c,
            CoverStage::Lookup,
            None,
        ).0 == CoverStage::AwaitImage,
        after_image(c, CoverStage::AwaitImage, None).1 == CoverActionView::Finish(None),
{
}

} // verus!
