use vstd::prelude::*;

verus! {

/// The bytes of an ASCII text.
pub open spec fn ascii_bytes(s: Seq<char>) -> Seq<u8> {
    s.map_values(|c: char| c as u8)
}

/// A byte of a word: an ASCII letter, digit or underscore.
pub open spec fn is_word_byte(b: u8) -> bool {
    (0x30 <= b && b <= 0x39) || (0x41 <= b && b <= 0x5a) || (0x61 <= b && b <= 0x7a) || b == 0x5f
}

/// A byte of an image host name: a word byte or `-`.
pub open spec fn is_host_byte(b: u8) -> bool {
    is_word_byte(b) || b == 0x2d
}

/// Whether `lit` occurs in `p` at `i`.
pub open spec fn has_at(p: Seq<u8>, i: int, lit: Seq<u8>) -> bool {
    &&& 0 <= i
    &&& i + lit.len() <= p.len()
    &&& p.subrange(i, i + lit.len()) == lit
}

/// How an album image URL starts.
pub open spec fn url_head() -> Seq<u8> {
    ascii_bytes("https://image"@)
}

/// What separates an image host's name from the image's id.
pub open spec fn url_middle() -> Seq<u8> {
    ascii_bytes(".spotifycdn.com/image/"@)
}

/// The marker of a 300 pixel tall image that may follow a URL.
pub open spec fn height_marker() -> Seq<u8> {
    ascii_bytes("\",\"maxHeight\":300"@)
}

/// The marker of a 300 pixel wide image that may follow a URL.
pub open spec fn width_marker() -> Seq<u8> {
    ascii_bytes("\",\"maxWidth\":300"@)
}

/// An album image URL spans `p[i..e]`, its host name ending at `j`: the
/// head, a non-empty host name, the middle, a non-empty word for the image's
/// id, and right after it a 300 pixel size marker.
pub open spec fn art_url_split(p: Seq<u8>, i: int, j: int, e: int) -> bool {
    &&& has_at(p, i, url_head())
    &&& i + url_head().len() < j
    &&& forall|k: int| i + url_head().len() <= k < j ==> is_host_byte(#[trigger] p[k])
    &&& has_at(p, j, url_middle())
    &&& j + url_middle().len() < e
    &&& forall|k: int| j + url_middle().len() <= k < e ==> is_word_byte(#[trigger] p[k])
    &&& (has_at(p, e, height_marker()) || has_at(p, e, width_marker()))
}

/// An album image URL of fixed size spans `p[i..e]`.
pub open spec fn art_url_at(p: Seq<u8>, i: int, e: int) -> bool {
    exists|j: int| art_url_split(p, i, j, e)
}

fn bytes_at(p: &[u8], i: usize, lit: &str) -> (r: bool)
    ensures
        r == has_at(p@, i as int, ascii_bytes(lit@)),
        r ==> i + lit@.len() <= p.len(),
{
    let n = lit.unicode_len();
    if i > p.len() || n > p.len() - i {
        return false;
    }
    let mut k: usize = 0;
    while k < n
        invariant
            k <= n,
            n == lit@.len(),
            i + n <= p.len(),
            forall|m: int| 0 <= m < k ==> p@[i + m] == #[trigger] ascii_bytes(lit@)[m],
        decreases n - k,
    {
        if p[i + k] != #[verifier::truncate] (lit.get_char(k) as u8) {
            assert(p@.subrange(i as int, i + n)[k as int] != ascii_bytes(lit@)[k as int]);
            return false;
        }
        k = k + 1;
    }
    assert(p@.subrange(i as int, i + n) =~= ascii_bytes(lit@));
    true
}

fn word_byte(b: u8) -> (r: bool)
    ensures
        r == is_word_byte(b),
{
    (0x30 <= b && b <= 0x39) || (0x41 <= b && b <= 0x5a) || (0x61 <= b && b <= 0x7a) || b == 0x5f
}

/// The end of the longest run from `start` of bytes that are word bytes, or
/// host bytes when `host` is set.
fn run_end(p: &[u8], start: usize, host: bool) -> (r: usize)
    requires
        start <= p@.len(),
    ensures
        start <= r <= p@.len(),
        forall|k: int|
            start <= k < r ==> (if host {
                is_host_byte(#[trigger] p@[k])
            } else {
                is_word_byte(p@[k])
            }),
        r < p@.len() ==> !(if host {
            is_host_byte(p@[r as int])
        } else {
            is_word_byte(p@[r as int])
        }),
{
    let mut k = start;
    while k < p.len()
        invariant
            start <= k <= p@.len(),
            forall|m: int|
                start <= m < k ==> (if host {
                    is_host_byte(#[trigger] p@[m])
                } else {
                    is_word_byte(p@[m])
                }),
        decreases p@.len() - k,
    {
        let b = p[k];
        let ok = if host {
            word_byte(b) || b == 0x2d
        } else {
            word_byte(b)
        };
        if !ok {
            return k;
        }
        k = k + 1;
    }
    k
}

/// Where the album image URL that starts at `i` ends, if one starts there.
fn art_url_end(p: &[u8], i: usize) -> (r: Option<usize>)
    ensures
        match r {
            Some(e) => art_url_at(p@, i as int, e as int),
            None => forall|e: int| !art_url_at(p@, i as int, e),
        },
{
    proof {
        reveal_strlit("https://image");
        reveal_strlit(".spotifycdn.com/image/");
        reveal_strlit("\",\"maxHeight\":300");
        reveal_strlit("\",\"maxWidth\":300");
    }
    assert(url_head().len() == 13);
    assert(url_middle().len() == 22);
    assert(url_middle()[0] == 0x2e);
    assert(height_marker()[0] == 0x22);
    assert(width_marker()[0] == 0x22);
    if !bytes_at(p, i, "https://image") {
        return None;
    }
    assert(i + 13 <= p.len());
    let h = i + 13;
    let j = run_end(p, h, true);
    if j == h || !bytes_at(p, j, ".spotifycdn.com/image/") {
        assert forall|e: int| !art_url_at(p@, i as int, e) by {
            if art_url_at(p@, i as int, e) {
                let j2 = choose|j2: int| art_url_split(p@, i as int, j2, e);
                assert(p@.subrange(j2, j2 + 22)[0] == p@[j2]);
                if j2 < j {
                    assert(is_host_byte(p@[j2]));
                } else if j2 > j {
                    assert(is_host_byte(p@[j as int]));
                }
            }
        }
        return None;
    }
    assert(j + 22 <= p.len());
    let w = j + 22;
    let e = run_end(p, w, false);
    if e == w || !(bytes_at(p, e, "\",\"maxHeight\":300") || bytes_at(p, e, "\",\"maxWidth\":300")) {
        assert forall|e2: int| !art_url_at(p@, i as int, e2) by {
            if art_url_at(p@, i as int, e2) {
                let j2 = choose|j2: int| art_url_split(p@, i as int, j2, e2);
                assert(p@.subrange(j2, j2 + 22)[0] == p@[j2]);
                if j2 < j {
                    assert(is_host_byte(p@[j2]));
                } else if j2 > j {
                    assert(is_host_byte(p@[j as int]));
                }
                assert(j2 == j);
                if has_at(p@, e2, height_marker()) {
                    assert(p@.subrange(e2, e2 + height_marker().len())[0] == p@[e2]);
                } else {
                    assert(p@.subrange(e2, e2 + width_marker().len())[0] == p@[e2]);
                }
                if e2 < e {
                    assert(is_word_byte(p@[e2]));
                } else if e2 > e {
                    assert(is_word_byte(p@[e as int]));
                }
            }
        }
        return None;
    }
    assert(art_url_split(p@, i as int, j as int, e as int));
    Some(e)
}

/// The first album image URL of fixed size in an embed page: the leftmost
/// place where an image URL of the streaming service's CDN is followed right
/// away by a 300 pixel height or width marker.
pub fn art_url_in_page(page: &[u8]) -> (r: Option<Vec<u8>>)
    ensures
        match r {
            Some(u) => exists|i: int, e: int|
                {
                    &&& art_url_at(page@, i, e)
                    &&& u@ == page@.subrange(i, e)
                    &&& forall|i2: int, e2: int| 0 <= i2 < i ==> !art_url_at(page@, i2, e2)
                },
            None => forall|i: int, e: int| !art_url_at(page@, i, e),
        },
{
    let mut i: usize = 0;
    while i < page.len()
        invariant
            i <= page@.len(),
            forall|i2: int, e2: int| 0 <= i2 < i ==> !art_url_at(page@, i2, e2),
        decreases page@.len() - i,
    {
        match art_url_end(page, i) {
            Some(e) => {
                let mut u: Vec<u8> = Vec::new();
                let mut k = i;
                assert(e <= page@.len()) by {
                    let j2 = choose|j2: int| art_url_split(page@, i as int, j2, e as int);
                }
                while k < e
                    invariant
                        i <= k <= e <= page@.len(),
                        u@ == page@.subrange(i as int, k as int),
                    decreases e - k,
                {
                    u.push(page[k]);
                    k = k + 1;
                    assert(u@ =~= page@.subrange(i as int, k as int));
                }
                return Some(u);
            },
            None => {},
        }
        i = i + 1;
    }
    assert forall|i2: int, e2: int| !art_url_at(page@, i2, e2) by {
        if i2 >= i && art_url_at(page@, i2, e2) {
            let j2 = choose|j2: int| art_url_split(page@, i2, j2, e2);
        }
    }
    None
}

} // verus!
