use vstd::prelude::*;

use crate::text::same_text;

verus! {

/// A hexadecimal digit, in either case.
pub open spec fn is_hex_digit(c: char) -> bool {
    ('0' <= c && c <= '9') || ('a' <= c && c <= 'f') || ('A' <= c && c <= 'F')
}

/// A fill color: `#` followed by exactly three or exactly six hex digits.
pub open spec fn is_hex_color(s: Seq<char>) -> bool {
    &&& (s.len() == 4 || s.len() == 7)
    &&& s[0] == '#'
    &&& forall|i: int| 1 <= i < s.len() ==> is_hex_digit(#[trigger] s[i])
}

fn hex_digit(c: char) -> (r: bool)
    ensures
        r == is_hex_digit(c),
{
    ('0' <= c && c <= '9') || ('a' <= c && c <= 'f') || ('A' <= c && c <= 'F')
}

/// Returns whether `s` is an acceptable fill color.
pub fn is_valid_fill(s: &str) -> (r: bool)
    ensures
        r == is_hex_color(s@),
{
    let n = s.unicode_len();
    if n != 4 && n != 7 {
        return false;
    }
    if s.get_char(0) != '#' {
        return false;
    }
    let mut i: usize = 1;
    while i < n
        invariant
            1 <= i <= n,
            n == s@.len(),
            forall|j: int| 1 <= j < i ==> is_hex_digit(#[trigger] s@[j]),
        decreases n - i,
    {
        if !hex_digit(s.get_char(i)) {
            return false;
        }
        i = i + 1;
    }
    true
}

/// The widget's color scheme.
#[derive(Clone, Copy, Debug, PartialEq, Eq, Structural)]
pub enum ColorMode {
    Light,
    Dark,
}

/// What a `color_mode` parameter selects: `light`, `dark`, or nothing.
pub open spec fn color_mode_of(s: Seq<char>) -> Option<ColorMode> {
    if s == "light"@ {
        Some(ColorMode::Light)
    } else if s == "dark"@ {
        Some(ColorMode::Dark)
    } else {
        None
    }
}

impl ColorMode {
    /// Parses a `color_mode` request parameter; unknown values select nothing.
    pub fn parse(s: &str) -> (r: Option<ColorMode>)
        ensures
            r == color_mode_of(s@),
    {
        if same_text(s, "light") {
            Some(ColorMode::Light)
        } else if same_text(s, "dark") {
            Some(ColorMode::Dark)
        } else {
            None
        }
    }
}

/// How a widget is drawn, as derived from the request parameters.
#[derive(Clone, Debug)]
pub struct RenderOptions {
    pub color_mode: Option<ColorMode>,
    /// Always a valid hex color when present.
    pub fill: Option<String>,
    pub transparent: bool,
}

/// The view of an optional string.
pub open spec fn opt_view(o: Option<String>) -> Option<Seq<char>> {
    match o {
        Some(s) => Some(s@),
        None => None,
    }
}

/// The view of an optional string slice.
pub open spec fn opt_str_view(o: Option<&str>) -> Option<Seq<char>> {
    match o {
        Some(s) => Some(s@),
        None => None,
    }
}

/// The fill that a `fill` parameter yields: kept verbatim when it is a hex
/// color, dropped otherwise.
pub open spec fn fill_of(p: Option<Seq<char>>) -> Option<Seq<char>> {
    match p {
        Some(f) => if is_hex_color(f) { Some(f) } else { None },
        None => None,
    }
}

impl RenderOptions {
    /// Well-formed options carry only a valid fill.
    pub open spec fn wf(&self) -> bool {
        match self.fill {
            Some(f) => is_hex_color(f@),
            None => true,
        }
    }

    /// Builds options from the raw request parameters. An unknown color mode
    /// and an invalid fill are dropped without error; `transparent` is set by
    /// the mere presence of its parameter.
    pub fn from_params(color_mode: Option<&str>, fill: Option<&str>, transparent: bool) -> (r: RenderOptions)
        ensures
            r.wf(),
            r.color_mode == (match color_mode {
                Some(m) => color_mode_of(m@),
                None => None,
            }),
            opt_view(r.fill) == fill_of(opt_str_view(fill)),
            r.transparent == transparent,
    {
        let mode = match color_mode {
            Some(m) => ColorMode::parse(m),
            None => None,
        };
        let kept = match fill {
            Some(f) => if is_valid_fill(f) {
                Some(String::from_str(f))
            } else {
                None
            },
            None => None,
        };
        RenderOptions { color_mode: mode, fill: kept, transparent }
    }
}

} // verus!

verus! {

/// The tag that stands for a color mode in a cache key.
pub open spec fn mode_tag(m: Option<ColorMode>) -> Seq<char> {
    match m {
        Some(ColorMode::Light) => "light"@,
        Some(ColorMode::Dark) => "dark"@,
        None => "default"@,
    }
}

/// The tag that stands for a fill in a cache key.
pub open spec fn fill_tag(f: Option<Seq<char>>) -> Seq<char> {
    match f {
        Some(c) => c,
        None => "default"@,
    }
}

/// The tag that stands for the transparency flag in a cache key.
pub open spec fn transparent_tag(t: bool) -> Seq<char> {
    if t { "transparent"@ } else { "default"@ }
}

/// The response-cache key of a request: the options' tags, then the identity,
/// separated by `|`. No tag holds a `|`, so distinct requests get distinct keys.
pub open spec fn key_of(identity: Seq<char>, o: RenderOptions) -> Seq<char> {
    mode_tag(o.color_mode) + ("|"@ + (fill_tag(opt_view(o.fill)) + ("|"@ + (transparent_tag(
        o.transparent,
    ) + ("|"@ + identity)))))
}

fn mode_tag_text(m: Option<ColorMode>) -> (r: String)
    ensures
        r@ == mode_tag(m),
{
    match m {
        Some(ColorMode::Light) => String::from_str("light"),
        Some(ColorMode::Dark) => String::from_str("dark"),
        None => String::from_str("default"),
    }
}

fn fill_tag_text(f: &Option<String>) -> (r: String)
    ensures
        r@ == fill_tag(opt_view(*f)),
{
    match f {
        Some(c) => c.clone(),
        None => String::from_str("default"),
    }
}

fn transparent_tag_text(t: bool) -> (r: String)
    ensures
        r@ == transparent_tag(t),
{
    if t {
        String::from_str("transparent")
    } else {
        String::from_str("default")
    }
}

impl RenderOptions {
    /// The key under which the widget of `identity` drawn with these options
    /// is cached. It depends on the identity and the options alone.
    pub fn cache_key(&self, identity: &str) -> (r: String)
        ensures
            r@ == key_of(identity@, *self),
    {
        let m = mode_tag_text(self.color_mode);
        let f = fill_tag_text(&self.fill);
        let t = transparent_tag_text(self.transparent);
        let key = m.concat("|").concat(f.as_str()).concat("|").concat(t.as_str()).concat("|").concat(
            identity,
        );
        assert(key@ =~= key_of(identity@, *self));
        key
    }
}

} // verus!

verus! {

/// Whether a text holds no `|`.
pub open spec fn bar_free(s: Seq<char>) -> bool {
    forall|i: int| 0 <= i < s.len() ==> s[i] != '|'
}

proof fn lemma_split_at_first_bar(a1: Seq<char>, r1: Seq<char>, a2: Seq<char>, r2: Seq<char>)
    requires
        bar_free(a1),
        bar_free(a2),
        a1 + ("|"@ + r1) == a2 + ("|"@ + r2),
    ensures
        a1 == a2,
        r1 == r2,
{
    reveal_strlit("|");
    let k1 = a1 + ("|"@ + r1);
    let k2 = a2 + ("|"@ + r2);
    if a1.len() < a2.len() {
        assert(k1[a1.len() as int] == '|');
        assert(k2[a1.len() as int] == a2[a1.len() as int]);
    } else if a2.len() < a1.len() {
        assert(k2[a2.len() as int] == '|');
        assert(k1[a2.len() as int] == a1[a2.len() as int]);
    }
    assert(a1 =~= k1.subrange(0, a1.len() as int));
    assert(a2 =~= k2.subrange(0, a2.len() as int));
    assert(r1 =~= k1.subrange(a1.len() as int + 1, k1.len() as int));
    assert(r2 =~= k2.subrange(a2.len() as int + 1, k2.len() as int));
}

proof fn lemma_tags_bar_free(o: RenderOptions)
    requires
        o.wf(),
    ensures
        bar_free(mode_tag(o.color_mode)),
        bar_free(fill_tag(opt_view(o.fill))),
        bar_free(transparent_tag(o.transparent)),
{
    reveal_strlit("light");
    reveal_strlit("dark");
    reveal_strlit("default");
    reveal_strlit("transparent");
    let f = fill_tag(opt_view(o.fill));
    assert forall|i: int| 0 <= i < f.len() implies f[i] != '|' by {
        if o.fill is Some && i > 0 {
            assert(is_hex_digit(f[i]));
        }
    }
}

proof fn lemma_tags_injective(o1: RenderOptions, o2: RenderOptions)
    requires
        o1.wf(),
        o2.wf(),
    ensures
        mode_tag(o1.color_mode) == mode_tag(o2.color_mode) ==> o1.color_mode == o2.color_mode,
        fill_tag(opt_view(o1.fill)) == fill_tag(opt_view(o2.fill)) ==> opt_view(o1.fill)
            == opt_view(o2.fill),
        transparent_tag(o1.transparent) == transparent_tag(o2.transparent) ==> o1.transparent
            == o2.transparent,
{
    reveal_strlit("light");
    reveal_strlit("dark");
    reveal_strlit("default");
    reveal_strlit("transparent");
    let (f1, f2) = (fill_tag(opt_view(o1.fill)), fill_tag(opt_view(o2.fill)));
    if f1 == f2 && opt_view(o1.fill) != opt_view(o2.fill) {
        assert(f1[0] == f2[0]);
    }
    let (m1, m2) = (mode_tag(o1.color_mode), mode_tag(o2.color_mode));
    if m1 == m2 && o1.color_mode != o2.color_mode {
        assert(m1.len() != m2.len());
    }
    let (t1, t2) = (transparent_tag(o1.transparent), transparent_tag(o2.transparent));
    if t1 == t2 && o1.transparent != o2.transparent {
        assert(t1.len() != t2.len());
    }
}

/// Distinct requests get distinct response-cache keys: a key determines the
/// identity and the options it was made from.
pub proof fn lemma_cache_key_injective(
    id1: Seq<char>,
    o1: RenderOptions,
    id2: Seq<char>,
    o2: RenderOptions,
)
    requires
        o1.wf(),
        o2.wf(),
        key_of(id1, o1) == key_of(id2, o2),
    ensures
        id1 == id2,
        o1.color_mode == o2.color_mode,
        opt_view(o1.fill) == opt_view(o2.fill),
        o1.transparent == o2.transparent,
{
    lemma_tags_bar_free(o1);
    lemma_tags_bar_free(o2);
    lemma_tags_injective(o1, o2);
    let (m1, m2) = (mode_tag(o1.color_mode), mode_tag(o2.color_mode));
    let (f1, f2) = (fill_tag(opt_view(o1.fill)), fill_tag(opt_view(o2.fill)));
    let (t1, t2) = (transparent_tag(o1.transparent), transparent_tag(o2.transparent));
    let s1 = t1 + ("|"@ + id1);
    let s2 = t2 + ("|"@ + id2);
    let r1 = f1 + ("|"@ + s1);
    let r2 = f2 + ("|"@ + s2);
    lemma_split_at_first_bar(m1, r1, m2, r2);
    lemma_split_at_first_bar(f1, s1, f2, s2);
    lemma_split_at_first_bar(t1, id1, t2, id2);
}

} // verus!
