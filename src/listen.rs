use vstd::prelude::*;

use crate::cover::CoverRef;
use crate::options::opt_view;

verus! {

/// What the catalog knows of a listen's artwork.
#[derive(Clone, Debug)]
pub struct ListenMetadata {
    /// The release group found through the catalog, if any.
    pub release_group: Option<String>,
    /// The streaming service's album path, without the service's prefix.
    pub spotify_path: Option<String>,
}

/// A listen as shown by the widget.
#[derive(Clone, Debug)]
pub struct ListenData {
    pub title: String,
    pub artist: String,
    pub metadata: Option<ListenMetadata>,
}

/// The mathematical value of a listen.
pub struct ListenView {
    pub title: Seq<char>,
    pub artist: Seq<char>,
    pub release_group: Option<Seq<char>>,
    pub spotify_path: Option<Seq<char>>,
}

impl ListenData {
    pub open spec fn view(&self) -> ListenView {
        ListenView {
            title: self.title@,
            artist: self.artist@,
            release_group: match self.metadata {
                Some(m) => opt_view(m.release_group),
                None => None,
            },
            spotify_path: match self.metadata {
                Some(m) => opt_view(m.spotify_path),
                None => None,
            },
        }
    }

    /// The reference under which the listen's artwork is fetched: the
    /// release group when the catalog gave one, else the streaming path.
    pub fn cover_ref(&self) -> (r: Option<CoverRef>)
        ensures
            match (self@.release_group, self@.spotify_path) {
                (Some(g), _) => r matches Some(CoverRef::ReleaseGroupId(id)) && id@ == g,
                (None, Some(p)) => r matches Some(CoverRef::StreamingPath(q)) && q@ == p,
                (None, None) => r is None,
            },
    {
        match &self.metadata {
            Some(m) => match &m.release_group {
                Some(g) => Some(CoverRef::ReleaseGroupId(g.clone())),
                None => match &m.spotify_path {
                    Some(p) => Some(CoverRef::StreamingPath(p.clone())),
                    None => None,
                },
            },
            None => None,
        }
    }
}

/// A listen as the listening service reports it.
#[derive(Clone, Debug)]
pub struct ListenPayload {
    pub title: String,
    pub artist: String,
    /// The catalog release of a current listen, from its additional info.
    pub release_mbid: Option<String>,
    /// The catalog recording that a past listen was mapped to.
    pub recording_mbid: Option<String>,
    /// The streaming service's album URL, from the additional info.
    pub spotify_album: Option<String>,
}

/// The mathematical value of a payload.
pub struct PayloadView {
    pub title: Seq<char>,
    pub artist: Seq<char>,
    pub release_mbid: Option<Seq<char>>,
    pub recording_mbid: Option<Seq<char>>,
    pub spotify_album: Option<Seq<char>>,
}

impl ListenPayload {
    pub open spec fn view(&self) -> PayloadView {
        PayloadView {
            title: self.title@,
            artist: self.artist@,
            release_mbid: opt_view(self.release_mbid),
            recording_mbid: opt_view(self.recording_mbid),
            spotify_album: opt_view(self.spotify_album),
        }
    }
}

/// The prefix of the streaming service's album URLs.
pub open spec fn streaming_prefix() -> Seq<char> {
    "https://open.spotify.com/"@
}

/// An album URL with the streaming service's prefix stripped.
pub open spec fn streaming_path_of(url: Seq<char>) -> Seq<char> {
    let n = streaming_prefix().len();
    if n <= url.len() && url.subrange(0, n as int) == streaming_prefix() {
        url.subrange(n as int, url.len() as int)
    } else {
        url
    }
}

/// Strips the streaming service's prefix from an album URL.
pub fn streaming_path(url: &str) -> (r: String)
    ensures
        r@ == streaming_path_of(url@),
{
    let prefix = "https://open.spotify.com/";
    assert(prefix@ == streaming_prefix());
    let n = prefix.unicode_len();
    let len = url.unicode_len();
    if n > len {
        return String::from_str(url);
    }
    let mut k: usize = 0;
    while k < n
        invariant
            k <= n <= len,
            n == prefix@.len(),
            prefix@ == streaming_prefix(),
            len == url@.len(),
            forall|m: int| 0 <= m < k ==> url@[m] == prefix@[m],
        decreases n - k,
    {
        if url.get_char(k) != prefix.get_char(k) {
            assert(url@.subrange(0, n as int)[k as int] != prefix@[k as int]);
            assert(url@.subrange(0, n as int) != streaming_prefix());
            return String::from_str(url);
        }
        k = k + 1;
    }
    assert(url@.subrange(0, n as int) =~= prefix@);
    String::from_str(url.substring_char(n, len))
}

/// The streaming path of an optional album URL.
pub open spec fn opt_path_of(url: Option<Seq<char>>) -> Option<Seq<char>> {
    match url {
        Some(u) => Some(streaming_path_of(u)),
        None => None,
    }
}

/// How far the resolution of a listen has come.
#[derive(Clone, Copy, Debug, PartialEq, Eq, Structural)]
pub enum ListenStage {
    AwaitCurrent,
    AwaitRecent,
    AwaitRelease,
    AwaitReleaseGroup,
    Found,
    NoHistory,
}

/// What the caller does next to resolve a listen.
#[derive(Clone, Debug)]
pub enum ListenAction {
    /// Ask the listening service for the identity's current listen, and
    /// report with `on_listens`.
    FetchCurrent,
    /// Ask the listening service for the identity's most recent past listen
    /// (a count of one), and report with `on_listens`.
    FetchRecent,
    /// Ask the catalog for the release of this recording, and report with
    /// `on_catalog`.
    ReleaseByRecording(String),
    /// Ask the catalog for the release group of this release, and report with
    /// `on_catalog`.
    ReleaseGroupByRelease(String),
    /// Done: this listen, current when the flag is set.
    Found(ListenData, bool),
    /// Done: the identity has no listen history.
    NoHistory,
}

/// The mathematical value of a `ListenAction`.
pub enum ListenActionView {
    FetchCurrent,
    FetchRecent,
    ReleaseByRecording(Seq<char>),
    ReleaseGroupByRelease(Seq<char>),
    Found(ListenView, bool),
    NoHistory,
}

impl ListenAction {
    pub open spec fn view(&self) -> ListenActionView {
        match self {
            ListenAction::FetchCurrent => ListenActionView::FetchCurrent,
            ListenAction::FetchRecent => ListenActionView::FetchRecent,
            ListenAction::ReleaseByRecording(r) => ListenActionView::ReleaseByRecording(r@),
            ListenAction::ReleaseGroupByRelease(r) => ListenActionView::ReleaseGroupByRelease(r@),
            ListenAction::Found(l, live) => ListenActionView::Found(l@, *live),
            ListenAction::NoHistory => ListenActionView::NoHistory,
        }
    }
}

/// The resolution of an identity's listen: its current listen, else its most
/// recent past one; then the catalog lookups that lead to the listen's
/// release group. A failed lookup only leaves the release group out.
#[derive(Clone, Debug)]
pub struct ListenResolver {
    pub stage: ListenStage,
    pub live: bool,
    pub title: String,
    pub artist: String,
    pub spotify_path: Option<String>,
}

/// The mathematical value of a resolver.
pub struct ResolverView {
    pub stage: ListenStage,
    pub live: bool,
    pub title: Seq<char>,
    pub artist: Seq<char>,
    pub spotify_path: Option<Seq<char>>,
}

impl ListenResolver {
    pub open spec fn view(&self) -> ResolverView {
        ResolverView {
            stage: self.stage,
            live: self.live,
            title: self.title@,
            artist: self.artist@,
            spotify_path: opt_view(self.spotify_path),
        }
    }
}

/// The view of a list of payloads, or of a failed fetch.
pub open spec fn listens_view(l: Option<Vec<ListenPayload>>) -> Option<Seq<PayloadView>> {
    match l {
        Some(v) => Some(v@.map_values(|p: ListenPayload| p@)),
        None => None,
    }
}

/// The listen that a resolver has gathered, with this release group.
pub open spec fn found_view(s: ResolverView, g: Option<Seq<char>>) -> ListenView {
    ListenView { title: s.title, artist: s.artist, release_group: g, spotify_path: s.spotify_path }
}

/// The state after taking a listen from the listening service.
pub open spec fn taken(p: PayloadView, stage: ListenStage, live: bool) -> ResolverView {
    ResolverView {
        stage,
        live,
        title: p.title,
        artist: p.artist,
        spotify_path: opt_path_of(p.spotify_album),
    }
}

/// The step taken on the listening service's answer. A failed fetch and an
/// empty list are alike: for the current listen both fall back to the past
/// listens, for the past listens both mean that there is no history.
pub open spec fn listens_step(s: ResolverView, l: Option<Seq<PayloadView>>) -> (
    ResolverView,
    ListenActionView,
) {
    let first: Option<PayloadView> = match l {
        Some(v) => if v.len() > 0 { Some(v[0]) } else { None },
        None => None,
    };
    if s.stage == ListenStage::AwaitCurrent {
        match first {
            Some(p) => match p.release_mbid {
                Some(r) => (
                    taken(p, ListenStage::AwaitReleaseGroup, true),
                    ListenActionView::ReleaseGroupByRelease(r),
                ),
                None => (
                    taken(p, ListenStage::Found, true),
                    ListenActionView::Found(found_view(taken(p, ListenStage::Found, true), None), true),
                ),
            },
            None => (ResolverView { stage: ListenStage::AwaitRecent, ..s }, ListenActionView::FetchRecent),
        }
    } else if s.stage == ListenStage::AwaitRecent {
        match first {
            Some(p) => match p.recording_mbid {
                Some(r) => (
                    taken(p, ListenStage::AwaitRelease, false),
                    ListenActionView::ReleaseByRecording(r),
                ),
                None => (
                    taken(p, ListenStage::Found, false),
                    ListenActionView::Found(found_view(taken(p, ListenStage::Found, false), None), false),
                ),
            },
            None => (ResolverView { stage: ListenStage::NoHistory, ..s }, ListenActionView::NoHistory),
        }
    } else {
        (ResolverView { stage: ListenStage::NoHistory, ..s }, ListenActionView::NoHistory)
    }
}

/// The step taken on the catalog's answer: the id it found, or `None` when
/// the lookup failed.
pub open spec fn catalog_step(s: ResolverView, id: Option<Seq<char>>) -> (
    ResolverView,
    ListenActionView,
) {
    let done = ResolverView { stage: ListenStage::Found, ..s };
    if s.stage == ListenStage::AwaitRelease {
        match id {
            Some(r) => (
                ResolverView { stage: ListenStage::AwaitReleaseGroup, ..s },
                ListenActionView::ReleaseGroupByRelease(r),
            ),
            None => (done, ListenActionView::Found(found_view(s, None), s.live)),
        }
    } else if s.stage == ListenStage::AwaitReleaseGroup {
        (done, ListenActionView::Found(found_view(s, id), s.live))
    } else {
        (ResolverView { stage: ListenStage::NoHistory, ..s }, ListenActionView::NoHistory)
    }
}

impl ListenResolver {
    /// Starts a resolution by asking for the current listen.
    pub fn new() -> (r: (ListenResolver, ListenAction))
        ensures
            r.0.stage == ListenStage::AwaitCurrent,
            r.0@.spotify_path is None,
            r.1@ == ListenActionView::FetchCurrent,
    {
        (
            ListenResolver {
                stage: ListenStage::AwaitCurrent,
                live: false,
                title: String::new(),
                artist: String::new(),
                spotify_path: None,
            },
            ListenAction::FetchCurrent,
        )
    }

    fn take(&mut self, p: ListenPayload, stage: ListenStage, live: bool)
        ensures
            final(self)@ == taken(p@, stage, live),
    {
        self.stage = stage;
        self.live = live;
        self.title = p.title;
        self.artist = p.artist;
        self.spotify_path = match &p.spotify_album {
            Some(u) => Some(streaming_path(u.as_str())),
            None => None,
        };
    }

    fn found(&self, release_group: Option<String>) -> (r: ListenAction)
        ensures
            r@ == ListenActionView::Found(found_view(self@, opt_view(release_group)), self.live),
    {
        ListenAction::Found(
            ListenData {
                title: self.title.clone(),
                artist: self.artist.clone(),
                metadata: Some(
                    ListenMetadata {
                        release_group,
                        spotify_path: self.spotify_path.clone(),
                    },
                ),
            },
            self.live,
        )
    }

    /// Takes the listening service's answer to `FetchCurrent` or
    /// `FetchRecent`: the listens it returned, or `None` when the fetch or
    /// its parsing failed.
    pub fn on_listens(&mut self, listens: Option<Vec<ListenPayload>>) -> (r: ListenAction)
        ensures
            (final(self)@, r@) == listens_step(old(self)@, listens_view(listens)),
    {
        let stage = self.stage;
        if stage != ListenStage::AwaitCurrent && stage != ListenStage::AwaitRecent {
            self.stage = ListenStage::NoHistory;
            return ListenAction::NoHistory;
        }
        let first = match listens {
            Some(mut v) => if v.len() > 0 {
                let p = v.remove(0);
                assert(p@ == listens_view(listens)->0[0]);
                Some(p)
            } else {
                None
            },
            None => None,
        };
        match first {
            Some(p) => if stage == ListenStage::AwaitCurrent {
                match &p.release_mbid {
                    Some(r) => {
                        let release = r.clone();
                        self.take(p, ListenStage::AwaitReleaseGroup, true);
                        ListenAction::ReleaseGroupByRelease(release)
                    },
                    None => {
                        self.take(p, ListenStage::Found, true);
                        self.found(None)
                    },
                }
            } else {
                match &p.recording_mbid {
                    Some(r) => {
                        let recording = r.clone();
                        self.take(p, ListenStage::AwaitRelease, false);
                        ListenAction::ReleaseByRecording(recording)
                    },
                    None => {
                        self.take(p, ListenStage::Found, false);
                        self.found(None)
                    },
                }
            },
            None => if stage == ListenStage::AwaitCurrent {
                self.stage = ListenStage::AwaitRecent;
                ListenAction::FetchRecent
            } else {
                self.stage = ListenStage::NoHistory;
                ListenAction::NoHistory
            },
        }
    }

    /// Takes the catalog's answer to `ReleaseByRecording` or
    /// `ReleaseGroupByRelease`: the id found, or `None` when the lookup failed
    /// or found nothing.
    pub fn on_catalog(&mut self, id: Option<String>) -> (r: ListenAction)
        ensures
            (final(self)@, r@) == catalog_step(old(self)@, opt_view(id)),
    {
        if self.stage == ListenStage::AwaitRelease {
            match id {
                Some(release) => {
                    self.stage = ListenStage::AwaitReleaseGroup;
                    ListenAction::ReleaseGroupByRelease(release)
                },
                None => {
                    self.stage = ListenStage::Found;
                    self.found(None)
                },
            }
        } else if self.stage == ListenStage::AwaitReleaseGroup {
            self.stage = ListenStage::Found;
            self.found(id)
        } else {
            self.stage = ListenStage::NoHistory;
            ListenAction::NoHistory
        }
    }
}

} // verus!

verus! {

/// Whether a fetch of listens gave none: it failed, or its list is empty.
pub open spec fn no_listen(l: Option<Seq<PayloadView>>) -> bool {
    match l {
        Some(v) => v.len() == 0,
        None => true,
    }
}

/// An identity without a current listen and without a past listen resolves
/// to no history, after asking for each once; nothing else is fetched.
pub proof fn lemma_no_history(
    s: ResolverView,
    current: Option<Seq<PayloadView>>,
    recent: Option<Seq<PayloadView>>,
)
    requires
        s.stage == ListenStage::AwaitCurrent,
        no_listen(current),
        no_listen(recent),
    ensures
        listens_step(s, current).1 == ListenActionView::FetchRecent,
        listens_step(listens_step(s, current).0, recent).1 == ListenActionView::NoHistory,
        listens_step(listens_step(s, current).0, recent).0.stage == ListenStage::NoHistory,
{
}

/// A current listen whose release the catalog maps to release group `g`, and
/// a past listen whose recording leads through its release to `g`, both
/// resolve to a listen with release group `g`: the first in one lookup and as
/// current, the second in two lookups and as past.
pub proof fn lemma_release_group_found(
    s: ResolverView,
    current: PayloadView,
    past: PayloadView,
    release: Seq<char>,
    g: Seq<char>,
)
    requires
        s.stage == ListenStage::AwaitCurrent,
        current.release_mbid is Some,
        past.recording_mbid is Some,
    ensures
        ({
            let s1 = listens_step(s, Some(seq![current]));
            &&& s1.1 == ListenActionView::ReleaseGroupByRelease(current.release_mbid->0)
            &&& catalog_step(s1.0, Some(g)).1 == ListenActionView::Found(
                ListenView {
                    title: current.title,
                    artist: current.artist,
                    release_group: Some(g),
                    spotify_path: opt_path_of(current.spotify_album),
                },
                true,
            )
        }),
        ({
            let s1 = listens_step(s, None);
            let s2 = listens_step(s1.0, Some(seq![past]));
            let s3 = catalog_step(s2.0, Some(release));
            &&& s2.1 == ListenActionView::ReleaseByRecording(past.recording_mbid->0)
            &&& s3.1 == ListenActionView::ReleaseGroupByRelease(release)
            &&& catalog_step(s3.0, Some(g)).1 == ListenActionView::Found(
                ListenView {
                    title: past.title,
                    artist: past.artist,
                    release_group: Some(g),
                    spotify_path: opt_path_of(past.spotify_album),
                },
                false,
            )
        }),
{
}

} // verus!
