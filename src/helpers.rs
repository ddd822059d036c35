//! Random colors that suit a light strip: the three channels always add up
//! to full scale, so no color is too dim or washed out.
use vstd::prelude::*;
use vstd::seq_lib::{commutative_foldr, lemma_fold_right_permutation};
use rand::Rng;
use rand::seq::SliceRandom;
use rand::rngs::ThreadRng;
use crate::color::Color;

verus! {

/// Relies on rand::rngs::ThreadRng: carried from the draw to the shuffle,
/// never looked into.
#[verifier::external_type_specification]
#[verifier::external_body]
pub struct ExThreadRng(rand::rngs::ThreadRng);

/// Relies on rand::thread_rng: hands out the generator of the calling thread.
pub assume_specification[ rand::thread_rng ]() -> rand::rngs::ThreadRng;

/// Relies on rand::Rng::gen_range over `0..=max`: a value from 0 to `max`
/// inclusive; that range is never empty, so the call does not panic.
#[verifier::external_body]
fn draw_at_most(rng: &mut ThreadRng, max: u8) -> (r: u8)
    ensures
        r <= max,
{
    rng.gen_range(0..=max)
}

/// Relies on rand::seq::SliceRandom::shuffle: the values are permuted in
/// place, none added or lost.
#[verifier::external_body]
fn shuffle_channels(rng: &mut ThreadRng, channels: &mut Vec<u8>)
    ensures
        final(channels)@.to_multiset() == old(channels)@.to_multiset(),
{
    channels.shuffle(rng)
}

/// Adds one channel to a running total.
pub open spec fn add_channel() -> spec_fn(u8, int) -> int {
    |x: u8, acc: int| x as int + acc
}

proof fn lemma_sum_of_three(s: Seq<u8>)
    requires
        s.len() == 3,
    ensures
        s.fold_right(add_channel(), 0) == s[0] as int + s[1] as int + s[2] as int,
{
    let f = add_channel();
    let s1 = s.drop_last();
    let s2 = s1.drop_last();
    let s3 = s2.drop_last();
    let a = f(s.last(), 0);
    let b = f(s1.last(), a);
    let c = f(s2.last(), b);
    assert(s.fold_right(f, 0) == s1.fold_right(f, a));
    assert(s1.fold_right(f, a) == s2.fold_right(f, b));
    assert(s2.fold_right(f, b) == s3.fold_right(f, c));
    assert(s3.len() == 0);
    assert(s3.fold_right(f, c) == c);
    assert(s1.last() == s[1]);
    assert(s2.last() == s[0]);
}

/// Three channel values keep their sum under any permutation.
proof fn lemma_permuted_sum(s: Seq<u8>, t: Seq<u8>)
    requires
        s.len() == 3,
        s.to_multiset() == t.to_multiset(),
    ensures
        t.len() == 3,
        t[0] as int + t[1] as int + t[2] as int == s[0] as int + s[1] as int + s[2] as int,
{
    broadcast use vstd::seq_lib::group_to_multiset_ensures;
    let f = add_channel();
    assert(commutative_foldr(f));
    assert(t.len() == t.to_multiset().len());
    assert(s.len() == s.to_multiset().len());
    lemma_fold_right_permutation(s, t, f, 0);
    lemma_sum_of_three(s);
    lemma_sum_of_three(t);
}

/// The channels drawn as `red` and `green`, with blue taking what is left
/// of 255.
pub open spec fn drawn_channels(red: u8, green: u8) -> Seq<u8> {
    seq![red, green, (255 - red - green) as u8]
}

/// `c` holds the channels drawn as `red` and `green`, in some order.
pub open spec fn is_shuffled_draw(c: Color, red: u8, green: u8) -> bool {
    &&& red + green <= 255
    &&& seq![c.0, c.1, c.2].to_multiset() == drawn_channels(red, green).to_multiset()
}

/// The three channel values for draws `red` and `green`: blue takes the rest
/// of 255.
pub fn channels_from_draws(red: u8, green: u8) -> (r: Vec<u8>)
    requires
        red + green <= 255,
    ensures
        r@ == drawn_channels(red, green),
{
    let blue = 255 - red - green;
    let r: Vec<u8> = vec![red, green, blue];
    assert(r@ =~= drawn_channels(red, green));
    r
}

/// Gets a "led strip friendly" random color: its channels add up to 255.
pub fn get_random_color() -> (c: Color)
    ensures
        exists|red: u8, green: u8| is_shuffled_draw(c, red, green),
        c.channel_sum() == 255,
{
    let mut rng = rand::thread_rng();
    get_random_color_with_rng(&mut rng)
}

/// Gets a "led strip friendly" random color from `rng`: red is drawn from 0
/// to 255, green from 0 to what red leaves, blue takes the rest, and the three
/// values are shuffled across the channels. Every color whose channels add up
/// to 255 can come out, and no other.
pub fn get_random_color_with_rng(rng: &mut ThreadRng) -> (c: Color)
    ensures
        exists|red: u8, green: u8| is_shuffled_draw(c, red, green),
        c.channel_sum() == 255,
{
    let red = draw_at_most(rng, 255);
    let green = draw_at_most(rng, 255 - red);
    let mut channels = channels_from_draws(red, green);
    let ghost before = channels@;
    shuffle_channels(rng, &mut channels);
    proof {
        lemma_permuted_sum(before, channels@);
    }
    let c = Color::new(channels[0], channels[1], channels[2]);
    assert(seq![c.0, c.1, c.2] =~= channels@);
    assert(is_shuffled_draw(c, red, green));
    c
}

} // verus!
