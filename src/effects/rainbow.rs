//! The periodic mover: a rainbow gradient that rotates one pixel per step.
use vstd::prelude::*;
use vstd::arithmetic::div_mod::lemma_fundamental_div_mod_converse;
use crate::color::Color;
use crate::effects::{Effect, EffectError};
use crate::frame::LedData;

verus! {

/// `s` rotated right by `k` places, with wrap-around (`k` below the length).
pub open spec fn rotate_right(s: Seq<Color>, k: nat) -> Seq<Color> {
    Seq::new(s.len(), |j: int| s[(j + s.len() - k) % (s.len() as int)])
}

/// The rotation that follows rotation `k` on a strip of `n` pixels.
pub open spec fn next_offset(k: nat, n: nat) -> nat {
    if k + 1 >= n {
        0
    } else {
        k + 1
    }
}

/// The rotation after `ticks` steps from rotation `k` on `n` pixels.
pub open spec fn offset_after(k: nat, ticks: nat, n: nat) -> nat
    decreases ticks,
{
    if ticks == 0 {
        k
    } else {
        next_offset(offset_after(k, (ticks - 1) as nat, n), n)
    }
}

proof fn lemma_offset_after_mod(k: nat, ticks: nat, n: nat)
    requires
        k < n,
    ensures
        offset_after(k, ticks, n) == ((k + ticks) as int) % (n as int),
    decreases ticks,
{
    if ticks == 0 {
        lemma_fundamental_div_mod_converse(k as int, n as int, 0, k as int);
    } else {
        lemma_offset_after_mod(k, (ticks - 1) as nat, n);
        let prev = ((k + ticks) as int - 1) % (n as int);
        let q = ((k + ticks) as int - 1) / (n as int);
        assert((k + ticks) as int - 1 == q * n + prev) by {
            vstd::arithmetic::div_mod::lemma_fundamental_div_mod((k + ticks) as int - 1, n as int);
        }
        vstd::arithmetic::div_mod::lemma_mod_pos_bound((k + ticks) as int - 1, n as int);
        if prev + 1 >= n {
            assert(k + ticks == (q + 1) * n + 0) by (nonlinear_arith)
                requires
                    k + ticks - 1 == q * n + prev,
                    prev + 1 == n,
            ;
            lemma_fundamental_div_mod_converse((k + ticks) as int, n as int, q + 1, 0);
        } else {
            assert(k + ticks == q * n + (prev + 1)) by (nonlinear_arith)
                requires
                    k + ticks - 1 == q * n + prev,
            ;
            lemma_fundamental_div_mod_converse((k + ticks) as int, n as int, q, prev + 1);
        }
    }
}

/// The rainbow is periodic in the strip's length: after as many steps as
/// there are pixels, the rotation is back where it started, and so is the
/// frame.
pub proof fn lemma_rainbow_period(gradient: Seq<Color>, k: nat)
    requires
        k < gradient.len(),
    ensures
        offset_after(k, gradient.len(), gradient.len()) == k,
        rotate_right(gradient, offset_after(k, gradient.len(), gradient.len())) == rotate_right(gradient, k),
{
    let n = gradient.len();
    lemma_offset_after_mod(k, n, n);
    lemma_fundamental_div_mod_converse((k + n) as int, n as int, 1, k as int);
}

/// Holds the gradient and how far it has been rotated. The gradient is the
/// strip's sine rainbow: pixel `i` of `n` has channels
/// `sin(2πi/n + φ) * 127 + 128` with phases 0, 2π/3 and 4π/3, computed once
/// by the caller. The strip's pixel count is the gradient's length: every
/// frame has exactly that many pixels (`LED_SIZE` where the daemon builds it).
pub struct RainbowEffect {
    gradient: Vec<Color>,
    iterator: usize,
}

impl RainbowEffect {
    #[verifier::type_invariant]
    spec fn inv(&self) -> bool {
        &&& self.gradient@.len() > 0
        &&& self.iterator < self.gradient@.len()
    }

    pub closed spec fn gradient(&self) -> Seq<Color> {
        self.gradient@
    }

    /// The rotation of the next frame.
    pub closed spec fn offset(&self) -> nat {
        self.iterator as nat
    }

    pub open spec fn wf(&self) -> bool {
        &&& self.gradient().len() > 0
        &&& self.offset() < self.gradient().len()
    }

    pub fn new(gradient: Vec<Color>) -> (r: RainbowEffect)
        requires
            gradient@.len() > 0,
        ensures
            r.wf(),
            r.gradient() == gradient@,
            r.offset() == 0,
    {
        RainbowEffect { gradient, iterator: 0 }
    }

    /// Rotates the gradient right by the current offset, then advances the
    /// offset, back to 0 after a full turn.
    pub fn step(&mut self) -> (r: LedData)
        ensures
            final(self).wf(),
            r@ == rotate_right(old(self).gradient(), old(self).offset()),
            r@.len() == old(self).gradient().len(),
            final(self).gradient() == old(self).gradient(),
            final(self).offset() == next_offset(old(self).offset(), old(self).gradient().len()),
    {
        proof {
            use_type_invariant(&*self);
        }
        let n = self.gradient.len();
        let k = self.iterator;
        let mut data: Vec<Color> = Vec::with_capacity(n);
        let mut j: usize = 0;
        while j < n
            invariant
                n == self.gradient@.len(),
                k < n,
                j <= n,
                data@.len() == j,
                forall|i: int| 0 <= i < j ==> #[trigger] data@[i] == self.gradient@[(i + n - k) % (n as int)],
            decreases n - j,
        {
            let src = if j >= k { j - k } else { j + (n - k) };
            proof {
                if j >= k {
                    lemma_fundamental_div_mod_converse(j + n - k, n as int, 1, src as int);
                } else {
                    lemma_fundamental_div_mod_converse(j + n - k, n as int, 0, src as int);
                }
            }
            data.push(self.gradient[src]);
            j = j + 1;
        }
        assert(data@ =~= rotate_right(self.gradient@, k as nat));
        if k + 1 >= n {
            self.iterator = 0;
        } else {
            self.iterator = k + 1;
        }
        data
    }
}

impl Effect for RainbowEffect {
    fn update(&mut self) -> (r: Result<Option<LedData>, EffectError>)
        ensures
            final(self).wf(),
            r is Ok,
            r->Ok_0 is Some,
            r->Ok_0->Some_0@ == rotate_right(old(self).gradient(), old(self).offset()),
            r->Ok_0->Some_0@.len() == old(self).gradient().len(),
            final(self).gradient() == old(self).gradient(),
            final(self).offset() == next_offset(old(self).offset(), old(self).gradient().len()),
    {
        Ok(Some(self.step()))
    }
}

} // verus!
