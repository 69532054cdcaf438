use vstd::prelude::*;

use unicode_segmentation::UnicodeSegmentation;

verus! {

/// The extended grapheme clusters of a text, in order.
pub uninterp spec fn graphemes_of(s: Seq<char>) -> Seq<Seq<char>>;

/// Relies on unicode-segmentation's `graphemes(true)`: the extended grapheme
/// clusters of the text in order, which together make up the text.
#[verifier::external_body]
fn split_graphemes(s: &str) -> (r: Vec<String>)
    ensures
        r@.map_values(|g: String| g@) == graphemes_of(s@),
        r@.map_values(|g: String| g@).flatten() == s@,
{
    s.graphemes(true).map(|g| g.to_string()).collect()
}

/// The marker appended to a shortened text.
pub open spec fn ellipsis() -> Seq<char> {
    "\u{2026}"@
}

/// The text made of the first `end` of the clusters, with the ellipsis when
/// some but not all of them are kept.
pub open spec fn candidate_of(gs: Seq<Seq<char>>, end: int) -> Seq<char> {
    gs.take(end).flatten() + if 0 < end < gs.len() {
        ellipsis()
    } else {
        Seq::<char>::empty()
    }
}

/// A measured width, a failed measurement counting as zero.
pub open spec fn width_or_zero(w: Option<u64>) -> nat {
    match w {
        Some(x) => x as nat,
        None => 0,
    }
}

/// The number of clusters kept when the search starts from `end` and the
/// text of `e` clusters measures `w(e)`: the first `e`, going down, whose
/// text fits the budget, or none at all.
pub open spec fn fit_end(end: nat, w: spec_fn(nat) -> nat, budget: nat) -> nat
    decreases end,
{
    if end == 0 || w(end) <= budget {
        end
    } else {
        fit_end((end - 1) as nat, w, budget)
    }
}

/// The search for the longest prefix of a text's grapheme clusters that
/// fits a pixel budget. The caller measures each candidate and reports the
/// width; the candidate shrinks by one cluster while it is too wide.
#[derive(Clone, Debug)]
pub struct TextFit {
    pub graphemes: Vec<String>,
    /// How many clusters the current candidate keeps.
    pub end: usize,
}

impl TextFit {
    /// The clusters, as sequences of characters.
    pub open spec fn clusters(&self) -> Seq<Seq<char>> {
        self.graphemes@.map_values(|g: String| g@)
    }

    pub open spec fn wf(&self) -> bool {
        self.end <= self.graphemes@.len()
    }

    /// Starts the search for a text with all of its clusters.
    pub fn new(text: &str) -> (r: TextFit)
        ensures
            r.wf(),
            r.clusters() == graphemes_of(text@),
            r.clusters().flatten() == text@,
            r.end == r.graphemes@.len(),
            candidate_of(r.clusters(), r.end as int) == text@,
    {
        let graphemes = split_graphemes(text);
        let n = graphemes.len();
        let r = TextFit { graphemes, end: n };
        proof {
            assert(r.clusters().take(n as int) =~= r.clusters());
        }
        r
    }

    /// The text to measure next.
    pub fn candidate(&self) -> (r: String)
        requires
            self.wf(),
        ensures
            r@ == candidate_of(self.clusters(), self.end as int),
    {
        let ghost gs = self.clusters();
        let mut text = String::new();
        let mut k: usize = 0;
        while k < self.end
            invariant
                self.wf(),
                gs == self.clusters(),
                k <= self.end,
                text@ == gs.take(k as int).flatten_alt(),
            decreases self.end - k,
        {
            proof {
                assert(gs.take(k + 1).drop_last() =~= gs.take(k as int));
            }
            text.append(self.graphemes[k].as_str());
            k = k + 1;
        }
        proof {
            gs.take(self.end as int).lemma_flatten_and_flatten_alt_are_equivalent();
        }
        if 0 < self.end && self.end < self.graphemes.len() {
            text.append("\u{2026}");
        } else {
            assert(text@ + Seq::<char>::empty() =~= text@);
        }
        text
    }

    /// Takes the measured width of the current candidate, or `None` when the
    /// measurement failed, which counts as zero. A candidate that fits the
    /// budget, and the empty one, are accepted and returned; otherwise the
    /// candidate loses a cluster and the search goes on.
    pub fn measured(&mut self, width: Option<u64>, budget: u64) -> (r: Option<String>)
        requires
            old(self).wf(),
        ensures
            final(self).wf(),
            final(self).graphemes == old(self).graphemes,
            match r {
                Some(t) => {
                    &&& old(self).end == 0 || width_or_zero(width) <= budget
                    &&& final(self).end == old(self).end
                    &&& t@ == candidate_of(old(self).clusters(), old(self).end as int)
                },
                None => {
                    &&& old(self).end > 0 && width_or_zero(width) > budget
                    &&& final(self).end == old(self).end - 1
                },
            },
    {
        let w: u64 = match width {
            Some(x) => x,
            None => 0,
        };
        if self.end == 0 || w <= budget {
            Some(self.candidate())
        } else {
            self.end = self.end - 1;
            None
        }
    }
}

/// The search accepts a candidate that fits the budget, or the empty one.
pub proof fn lemma_fit_end_fits(end: nat, w: spec_fn(nat) -> nat, budget: nat)
    ensures
        fit_end(end, w, budget) <= end,
        fit_end(end, w, budget) == 0 || w(fit_end(end, w, budget)) <= budget,
    decreases end,
{
    if end > 0 && w(end) > budget {
        lemma_fit_end_fits((end - 1) as nat, w, budget);
    }
}

/// A text that fits the budget as a whole is kept whole: the search stops at
/// its first candidate, which is the text itself.
pub proof fn lemma_whole_text_kept(
    gs: Seq<Seq<char>>,
    text: Seq<char>,
    w: spec_fn(nat) -> nat,
    budget: nat,
)
    requires
        gs.flatten() == text,
        w(gs.len()) <= budget,
    ensures
        fit_end(gs.len(), w, budget) == gs.len(),
        candidate_of(gs, gs.len() as int) == text,
{
    assert(gs.take(gs.len() as int) =~= gs);
    assert(text + Seq::<char>::empty() =~= text);
}

/// With a budget of zero, and every non-empty candidate measuring more than
/// zero, the search ends on the empty text.
pub proof fn lemma_zero_budget_empty(gs: Seq<Seq<char>>, end: nat, w: spec_fn(nat) -> nat)
    requires
        forall|e: nat| 0 < e ==> #[trigger] w(e) > 0,
    ensures
        fit_end(end, w, 0) == 0,
        candidate_of(gs, 0) == Seq::<char>::empty(),
    decreases end,
{
    if end > 0 {
        lemma_zero_budget_empty(gs, (end - 1) as nat, w);
    }
    assert(gs.take(0) =~= Seq::<Seq<char>>::empty());
}

/// Each step of the search keeps the place where it ends: a candidate found
/// too wide is dropped for the next shorter one, which ends the same search,
/// and an accepted candidate is where the search ends.
pub proof fn lemma_step_keeps_fit_end(end: nat, w: spec_fn(nat) -> nat, budget: nat)
    ensures
        (end == 0 || w(end) <= budget) ==> fit_end(end, w, budget) == end,
        (end > 0 && w(end) > budget) ==> fit_end(end, w, budget) == fit_end(
            (end - 1) as nat,
            w,
            budget,
        ),
{
}

} // verus!
