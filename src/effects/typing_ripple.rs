//! Each key release starts a ripple of a random color that runs along the
//! strip for one second. Reading the keyboard and the clock is the caller's
//! part; times are in milliseconds.
use vstd::prelude::*;
use crate::color::Color;
use crate::frame::{solid, solid_frame, LedData, LED_SIZE};
use crate::helpers::get_random_color;

verus! {

/// How long a ripple runs, in milliseconds.
pub const RIPPLE_TIME_MS: u64 = 1000;

#[derive(Clone, Copy, Debug, PartialEq, Eq, Structural)]
pub struct Ripple {
    /// When the key was released.
    pub start_ms: u64,
    pub colour: Color,
}

/// Time since `start` at `now`; a start in the future counts as none.
pub open spec fn elapsed(start: u64, now: u64) -> int {
    if now >= start {
        now - start
    } else {
        0
    }
}

/// Whether a ripple still runs at `now`.
pub open spec fn alive(now: u64) -> spec_fn(Ripple) -> bool {
    |r: Ripple| elapsed(r.start_ms, now) < RIPPLE_TIME_MS
}

/// The ripples after key releases at `now`, one per new color, and the
/// removal of those that have run out.
pub open spec fn next_ripples(rs: Seq<Ripple>, now: u64, colours: Seq<Color>) -> Seq<Ripple> {
    (rs + Seq::new(colours.len(), |i: int| Ripple { start_ms: now, colour: colours[i] })).filter(
        alive(now),
    )
}

/// The ripples `after` follow from `before` when `releases` keys were
/// released at `now`, each starting a ripple of a random color.
pub open spec fn ripple_step(before: Seq<Ripple>, now: u64, releases: usize, after: Seq<Ripple>) -> bool {
    exists|colours: Seq<Color>|
        {
            &&& colours.len() == releases
            &&& forall|j: int| 0 <= j < colours.len() ==> (#[trigger] colours[j]).channel_sum() == 255
            &&& after == next_ripples(before, now, colours)
        }
}

/// How far a ripple has run, in pixels from its start.
pub open spec fn ripple_pos(r: Ripple, now: u64) -> int {
    elapsed(r.start_ms, now) * (LED_SIZE as int) / (RIPPLE_TIME_MS as int)
}

/// The strip, black, with the first `k` ripples painted in order; a later
/// ripple paints over an earlier one at the same place, and one that has run
/// past the strip's end is not shown.
pub open spec fn painted(rs: Seq<Ripple>, now: u64, k: nat) -> Seq<Color>
    decreases k,
{
    if k == 0 {
        solid(Color(0, 0, 0), LED_SIZE as nat)
    } else {
        let prev = painted(rs, now, (k - 1) as nat);
        let pos = ripple_pos(rs[k - 1], now);
        if 0 <= pos < LED_SIZE {
            prev.update(pos, rs[k - 1].colour)
        } else {
            prev
        }
    }
}

/// Painting keeps the strip's length.
pub proof fn lemma_painted_len(rs: Seq<Ripple>, now: u64, k: nat)
    ensures
        painted(rs, now, k).len() == LED_SIZE,
    decreases k,
{
    if k > 0 {
        lemma_painted_len(rs, now, (k - 1) as nat);
    }
}

/// Every ripple frame spans the strip.
pub proof fn lemma_ripple_frame_len(rs: Seq<Ripple>, now: u64)
    ensures
        ripple_frame(rs, now).len() == LED_SIZE,
{
    let k = if rs.len() < LED_SIZE {
        rs.len()
    } else {
        LED_SIZE as nat
    };
    lemma_painted_len(rs, now, k);
}

/// The frame for ripples `rs` at `now`: at most `LED_SIZE` of them painted,
/// the strip read from its far end.
pub open spec fn ripple_frame(rs: Seq<Ripple>, now: u64) -> Seq<Color> {
    let k = if rs.len() < LED_SIZE {
        rs.len()
    } else {
        LED_SIZE as nat
    };
    let p = painted(rs, now, k);
    Seq::new(p.len(), |i: int| p[p.len() - 1 - i])
}

pub struct TypingRippleEffect {
    ripples: Vec<Ripple>,
}

impl TypingRippleEffect {
    pub closed spec fn ripples(&self) -> Seq<Ripple> {
        self.ripples@
    }

    pub fn new() -> (r: TypingRippleEffect)
        ensures
            r.ripples() == Seq::<Ripple>::empty(),
    {
        TypingRippleEffect { ripples: Vec::new() }
    }

    /// Starts a ripple in each of `colours` at `now`, drops the ripples that
    /// have run out, and paints the rest.
    pub fn update_with_colours(&mut self, now_ms: u64, colours: &Vec<Color>) -> (r: LedData)
        ensures
            final(self).ripples() == next_ripples(old(self).ripples(), now_ms, colours@),
            r@ == ripple_frame(final(self).ripples(), now_ms),
            r@.len() == LED_SIZE,
    {
        let ghost started = self.ripples@;
        let mut i: usize = 0;
        while i < colours.len()
            invariant
                i <= colours@.len(),
                self.ripples@ == started + Seq::new(
                    i as nat,
                    |j: int| Ripple { start_ms: now_ms, colour: colours@[j] },
                ),
            decreases colours@.len() - i,
        {
            self.ripples.push(Ripple { start_ms: now_ms, colour: colours[i] });
            i = i + 1;
            assert(self.ripples@ =~= started + Seq::new(
                i as nat,
                |j: int| Ripple { start_ms: now_ms, colour: colours@[j] },
            ));
        }
        assert(self.ripples@ =~= started + Seq::new(
            colours@.len(),
            |j: int| Ripple { start_ms: now_ms, colour: colours@[j] },
        ));
        let ghost all = self.ripples@;
        let mut kept: Vec<Ripple> = Vec::new();
        let mut i: usize = 0;
        while i < self.ripples.len()
            invariant
                self.ripples@ == all,
                i <= all.len(),
                kept@ == all.subrange(0, i as int).filter(alive(now_ms)),
            decreases all.len() - i,
        {
            let r = self.ripples[i];
            let e = if now_ms >= r.start_ms {
                now_ms - r.start_ms
            } else {
                0
            };
            if e < RIPPLE_TIME_MS {
                kept.push(r);
            }
            proof {
                reveal(Seq::filter);
                let s1 = all.subrange(0, i + 1);
                assert(s1.drop_last() =~= all.subrange(0, i as int));
                assert(s1.last() == r);
                assert(alive(now_ms)(r) == (e < RIPPLE_TIME_MS));
                assert(s1.filter(alive(now_ms)) == if alive(now_ms)(r) {
                    s1.drop_last().filter(alive(now_ms)).push(r)
                } else {
                    s1.drop_last().filter(alive(now_ms))
                });
            }
            i = i + 1;
        }
        assert(all.subrange(0, all.len() as int) =~= all);
        self.ripples = kept;
        self.paint(now_ms)
    }

    /// Starts `releases` ripples of random colors at `now`, drops the
    /// ripples that have run out, and paints the rest.
    pub fn update(&mut self, now_ms: u64, releases: usize) -> (r: LedData)
        ensures
            ripple_step(old(self).ripples(), now_ms, releases, final(self).ripples()),
            r@ == ripple_frame(final(self).ripples(), now_ms),
            r@.len() == LED_SIZE,
    {
        let mut colours: Vec<Color> = Vec::new();
        let mut i: usize = 0;
        while i < releases
            invariant
                i <= releases,
                colours@.len() == i,
                forall|j: int| 0 <= j < colours@.len() ==> (#[trigger] colours@[j]).channel_sum() == 255,
            decreases releases - i,
        {
            colours.push(get_random_color());
            i = i + 1;
        }
        self.update_with_colours(now_ms, &colours)
    }

    fn paint(&self, now_ms: u64) -> (r: LedData)
        requires
            forall|j: int| 0 <= j < self.ripples@.len() ==> elapsed(#[trigger] self.ripples@[j].start_ms, now_ms) < RIPPLE_TIME_MS,
        ensures
            r@ == ripple_frame(self.ripples@, now_ms),
            r@.len() == LED_SIZE,
    {
        let k = if self.ripples.len() < LED_SIZE {
            self.ripples.len()
        } else {
            LED_SIZE
        };
        let mut data = solid_frame(Color::black());
        let mut i: usize = 0;
        while i < k
            invariant
                k <= self.ripples@.len(),
                k <= LED_SIZE,
                i <= k,
                forall|j: int| 0 <= j < self.ripples@.len() ==> elapsed(#[trigger] self.ripples@[j].start_ms, now_ms) < RIPPLE_TIME_MS,
                data@ == painted(self.ripples@, now_ms, i as nat),
                data@.len() == LED_SIZE,
            decreases k - i,
        {
            let r = self.ripples[i];
            let e = if now_ms >= r.start_ms {
                now_ms - r.start_ms
            } else {
                0
            };
            assert(e < RIPPLE_TIME_MS);
            let pos = (e * (LED_SIZE as u64) / RIPPLE_TIME_MS) as usize;
            assert(pos < LED_SIZE) by (nonlinear_arith)
                requires
                    e < 1000,
                    pos == e * 170 / 1000,
            ;
            data.set(pos, r.colour);
            i = i + 1;
        }
        let mut out: Vec<Color> = Vec::with_capacity(LED_SIZE);
        let mut j: usize = 0;
        while j < LED_SIZE
            invariant
                j <= LED_SIZE,
                data@.len() == LED_SIZE,
                out@.len() == j,
                forall|m: int| 0 <= m < j ==> #[trigger] out@[m] == data@[LED_SIZE - 1 - m],
            decreases LED_SIZE - j,
        {
            out.push(data[LED_SIZE - 1 - j]);
            j = j + 1;
        }
        assert(out@ =~= ripple_frame(self.ripples@, now_ms));
        out
    }
}

} // verus!
