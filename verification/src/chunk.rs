//! Chunk boundary detection for the streaming renderer.
//!
//! Tokens arrive one fragment at a time. Flushing each fragment to the
//! rich-text renderer as it arrives would break markup, and flushing only
//! at end-of-answer would feel unresponsive. So the detector accumulates
//! the whole answer, re-parses it on every token, and flushes everything
//! buffered so far whenever the parser reports more top-level blocks than
//! at the previous flush — the previously open block must have closed.

use vstd::prelude::*;
use vstd::seq_lib::lemma_flatten_concat;

verus! {

/// The number of top-level blocks the markdown parser finds in a text,
/// or nothing when the text does not parse into a document tree.
/// The result depends on the text alone.
pub uninterp spec fn md_root_blocks(s: Seq<char>) -> Option<usize>;

/// Relies on markdown::to_mdast with default (non-MDX) options: it turns
/// markdown into a syntax tree whose root's children are the top-level
/// blocks, and its result is a function of the input text alone.
#[verifier::external_body]
fn root_block_count(text: &str) -> (r: Option<usize>)
    ensures
        r == md_root_blocks(text@),
{
    match markdown::to_mdast(text, &markdown::ParseOptions::default()) {
        Ok(markdown::mdast::Node::Root(root)) => Some(root.children.len()),
        _ => None,
    }
}

/// Mathematical image of a `ChunkDetector`.
pub ghost struct DetectorView {
    /// All text received so far for the current answer.
    pub full: Seq<char>,
    /// Text received since the last flush.
    pub pending: Seq<char>,
    /// The block count recorded at the previous flush.
    pub baseline: int,
}

/// A fresh detector: empty buffers, and a baseline of one block, so that
/// nothing is flushed before at least a second top-level block appears.
pub open spec fn init_view() -> DetectorView {
    DetectorView { full: Seq::empty(), pending: Seq::empty(), baseline: 1 }
}

/// Whether receiving `tok` closes a top-level block: the grown text parses
/// and holds more top-level blocks than the recorded baseline.
pub open spec fn token_flushes(v: DetectorView, tok: Seq<char>) -> bool {
    match md_root_blocks(v.full + tok) {
        Some(c) => c > v.baseline,
        None => false,
    }
}

/// The detector state after one token. On a flush the pending buffer
/// restarts with just this token; otherwise the token joins it.
pub open spec fn step_view(v: DetectorView, tok: Seq<char>) -> DetectorView {
    if token_flushes(v, tok) {
        DetectorView {
            full: v.full + tok,
            pending: tok,
            baseline: md_root_blocks(v.full + tok)->Some_0 as int,
        }
    } else {
        DetectorView { full: v.full + tok, pending: v.pending + tok, baseline: v.baseline }
    }
}

/// What one token flushes: the old pending buffer, or nothing.
pub open spec fn step_out(v: DetectorView, tok: Seq<char>) -> Seq<Seq<char>> {
    if token_flushes(v, tok) {
        seq![v.pending]
    } else {
        Seq::empty()
    }
}

/// The detector state after a whole token sequence.
pub open spec fn run_view(v: DetectorView, toks: Seq<Seq<char>>) -> DetectorView
    decreases toks.len(),
{
    if toks.len() == 0 {
        v
    } else {
        run_view(step_view(v, toks.first()), toks.drop_first())
    }
}

/// All fragments flushed over a whole token sequence, in flush order.
pub open spec fn run_out(v: DetectorView, toks: Seq<Seq<char>>) -> Seq<Seq<char>>
    decreases toks.len(),
{
    if toks.len() == 0 {
        Seq::empty()
    } else {
        step_out(v, toks.first()) + run_out(step_view(v, toks.first()), toks.drop_first())
    }
}

/// Flush completeness: over any token sequence, the text flushed so far
/// plus the text still pending is exactly the pending text at the start
/// plus every token fed in — no loss, no duplication, no reordering.
pub proof fn lemma_flush_completeness(v: DetectorView, toks: Seq<Seq<char>>)
    ensures
        run_out(v, toks).flatten() + run_view(v, toks).pending == v.pending + toks.flatten(),
    decreases toks.len(),
{
    if toks.len() == 0 {
        assert(run_out(v, toks).flatten() + run_view(v, toks).pending =~= v.pending);
        assert(v.pending + toks.flatten() =~= v.pending);
    } else {
        let t = toks.first();
        let w = step_view(v, t);
        let rest = toks.drop_first();
        lemma_flush_completeness(w, rest);
        lemma_flatten_concat(step_out(v, t), run_out(w, rest));
        if token_flushes(v, t) {
            step_out(v, t).lemma_flatten_singleton();
        } else {
            assert(step_out(v, t).flatten() =~= Seq::<char>::empty());
        }
        assert(t + rest.flatten() =~= toks.flatten());
        assert(run_out(v, toks).flatten() + run_view(v, toks).pending =~= v.pending
            + toks.flatten());
    }
}

/// A whole answer: every token, then the unconditional end-of-stream flush.
/// The concatenation of all flushed fragments equals the concatenation of
/// all tokens.
pub proof fn lemma_answer_flushed_exactly(toks: Seq<Seq<char>>)
    ensures
        run_out(init_view(), toks).push(run_view(init_view(), toks).pending).flatten()
            == toks.flatten(),
{
    lemma_flush_completeness(init_view(), toks);
    run_out(init_view(), toks).lemma_flatten_push(run_view(init_view(), toks).pending);
    assert(run_out(init_view(), toks).push(run_view(init_view(), toks).pending).flatten()
        =~= toks.flatten());
}

/// What one token produced: at most one fragment ready for the
/// renderer, and whether the accumulated text failed to parse this time
/// (a reported, recoverable condition — never a flush).
pub struct TokenOutcome {
    pub flush: Option<String>,
    pub parse_failed: bool,
}

/// Decides, as tokens arrive, when the accumulated fragment is safe to
/// hand to the renderer.
pub struct ChunkDetector {
    full: String,
    pending: String,
    baseline: usize,
}

impl View for ChunkDetector {
    type V = DetectorView;

    closed spec fn view(&self) -> DetectorView {
        DetectorView { full: self.full@, pending: self.pending@, baseline: self.baseline as int }
    }
}

impl ChunkDetector {
    pub fn new() -> (r: ChunkDetector)
        ensures
            r@ == init_view(),
    {
        let r = ChunkDetector { full: String::new(), pending: String::new(), baseline: 1 };
        proof {
            assert(r@ =~= init_view());
        }
        r
    }

    /// Feeds one token. The outcome carries the fragment to hand to the
    /// renderer when a top-level block has just closed, and says whether
    /// the structural parse failed — to be reported by the caller, and
    /// never a flush.
    pub fn on_token(&mut self, tok: &str) -> (r: TokenOutcome)
        ensures
            final(self)@ == step_view(old(self)@, tok@),
            r.parse_failed == (md_root_blocks(old(self)@.full + tok@) is None),
            match r.flush {
                Some(out) => step_out(old(self)@, tok@) == seq![out@],
                None => step_out(old(self)@, tok@) == Seq::<Seq<char>>::empty(),
            },
    {
        self.full.append(tok);
        let count = root_block_count(self.full.as_str());
        let parse_failed = count.is_none();
        let mut flushed: Option<String> = None;
        if let Some(count) = count {
            if count > self.baseline {
                flushed = Some(self.pending.clone());
                self.pending = String::new();
                self.baseline = count;
            }
        }
        self.pending.append(tok);
        proof {
            assert(final(self)@ =~= step_view(old(self)@, tok@));
        }
        TokenOutcome { flush: flushed, parse_failed }
    }

    /// End of the answer: always returns exactly one final flush — the
    /// whole remaining pending text, possibly empty — and resets the
    /// detector for the next answer.
    pub fn end_of_answer(&mut self) -> (r: String)
        ensures
            r@ == old(self)@.pending,
            final(self)@ == init_view(),
    {
        let out = self.pending.clone();
        self.full = String::new();
        self.pending = String::new();
        self.baseline = 1;
        proof {
            assert(final(self)@ =~= init_view());
        }
        out
    }
}

/// The renderer's column budget: three quarters of a narrow terminal,
/// half of a wide one.
pub fn render_columns(columns: u16) -> (r: u16)
    ensures
        r as int == if columns as int / 2 < 77 {
            3 * (columns as int) / 4
        } else {
            columns as int / 2
        },
{
    if columns / 2 < 77 {
        let wide: u32 = 3 * (columns as u32);
        assert(wide / 4 <= u16::MAX as u32) by {
            assert(wide <= 3 * 65535);
        }
        (wide / 4) as u16
    } else {
        columns / 2
    }
}

} // verus!
