//! The random block generator: the strip in blocks of ten pixels, each block
//! one random color.
use vstd::prelude::*;
use crate::color::Color;
use crate::effects::{Effect, EffectConfig, EffectError};
use crate::frame::{LedData, LED_SIZE};
use crate::helpers::get_random_color_with_rng;

verus! {

/// The number of pixels that share one color.
pub const BLOCK_SIZE: usize = 10;

/// The frame in which block `b` has color `colours[b]`.
pub open spec fn blocks_of(colours: Seq<Color>) -> Seq<Color> {
    Seq::new(LED_SIZE as nat, |i: int| colours[i / (BLOCK_SIZE as int)])
}

/// A frame that the random block generator can produce: one drawn color per
/// block, each with channels that add up to 255.
pub open spec fn is_random_block_frame(f: Seq<Color>) -> bool {
    exists|colours: Seq<Color>|
        {
            &&& colours.len() == LED_SIZE / BLOCK_SIZE
            &&& forall|j: int| 0 <= j < colours.len() ==> (#[trigger] colours[j]).channel_sum() == 255
            &&& f == #[trigger] blocks_of(colours)
        }
}

/// A frame of `LED_SIZE` pixels, each with channels that add up to 255, one
/// color in each block.
pub open spec fn is_block_frame(f: Seq<Color>) -> bool {
    &&& f.len() == LED_SIZE
    &&& forall|i: int| 0 <= i < f.len() ==> (#[trigger] f[i]).channel_sum() == 255
    &&& forall|i: int, j: int|
        0 <= i < f.len() && 0 <= j < f.len() && i / (BLOCK_SIZE as int) == j / (BLOCK_SIZE as int)
            ==> #[trigger] f[i] == #[trigger] f[j]
}

/// Every frame of the random block generator spans the strip, each block is
/// one color, and every pixel's channels add up to 255.
pub proof fn lemma_random_block_frame(f: Seq<Color>)
    requires
        is_random_block_frame(f),
    ensures
        is_block_frame(f),
{
    let colours = choose|colours: Seq<Color>|
        {
            &&& colours.len() == LED_SIZE / BLOCK_SIZE
            &&& forall|j: int| 0 <= j < colours.len() ==> (#[trigger] colours[j]).channel_sum() == 255
            &&& f == #[trigger] blocks_of(colours)
        };
    assert forall|i: int| 0 <= i < f.len() implies (#[trigger] f[i]).channel_sum() == 255 by {
        assert(0 <= i / 10 < 17) by (nonlinear_arith)
            requires
                0 <= i < 170,
        ;
        assert(f[i] == colours[i / 10]);
    }
}

/// Fills each block of the strip with its color from `colours`.
pub fn block_frame(colours: &Vec<Color>) -> (r: LedData)
    requires
        colours@.len() == LED_SIZE / BLOCK_SIZE,
    ensures
        r@ == blocks_of(colours@),
{
    let mut data: Vec<Color> = Vec::with_capacity(LED_SIZE);
    let mut i: usize = 0;
    while i < LED_SIZE
        invariant
            colours@.len() == LED_SIZE / BLOCK_SIZE,
            i <= LED_SIZE,
            data@.len() == i,
            forall|k: int| 0 <= k < i ==> #[trigger] data@[k] == colours@[k / (BLOCK_SIZE as int)],
        decreases LED_SIZE - i,
    {
        assert(i / 10 < 17) by (nonlinear_arith)
            requires
                i < 170,
        ;
        data.push(colours[i / BLOCK_SIZE]);
        i = i + 1;
    }
    assert(data@ =~= blocks_of(colours@));
    data
}

#[derive(Clone, Copy, Debug)]
pub struct RandomEffect;

impl RandomEffect {
    pub fn new() -> (r: RandomEffect) {
        RandomEffect
    }
}

impl Effect for RandomEffect {
    /// Draws one color per block and fills the block with it.
    fn update(&mut self) -> (r: Result<Option<LedData>, EffectError>)
        ensures
            r is Ok,
            r->Ok_0 is Some,
            is_random_block_frame(r->Ok_0->Some_0@),
            is_block_frame(r->Ok_0->Some_0@),
    {
        let mut colours: Vec<Color> = Vec::with_capacity(LED_SIZE / BLOCK_SIZE);
        let mut rng = rand::thread_rng();
        let mut b: usize = 0;
        while b < LED_SIZE / BLOCK_SIZE
            invariant
                b <= LED_SIZE / BLOCK_SIZE,
                colours@.len() == b,
                forall|j: int| 0 <= j < colours@.len() ==> (#[trigger] colours@[j]).channel_sum() == 255,
            decreases LED_SIZE / BLOCK_SIZE - b,
        {
            colours.push(get_random_color_with_rng(&mut rng));
            b = b + 1;
        }
        let data = block_frame(&colours);
        proof {
            assert(data@ == blocks_of(colours@));
            lemma_random_block_frame(data@);
        }
        Ok(Some(data))
    }

    fn get_config(&self) -> (r: EffectConfig)
        ensures
            r.delay_ms == 1000,
    {
        EffectConfig { delay_ms: 1000 }
    }
}

} // verus!
