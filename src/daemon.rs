//! The shared effect slot and the decisions of the render loop: which effect
//! is active, what one tick produces, and how long to wait before the next.
use vstd::prelude::*;
use crate::client::{ClientType, WebStatus};
use crate::color::Color;
use crate::effects::{Effect, EffectError, DEFAULT_DELAY_MS};
use crate::effects::coding::{mode_color, CodingEffect, Mode};
use crate::effects::rainbow::{next_offset, rotate_right, RainbowEffect};
use crate::effects::random::{is_random_block_frame, lemma_random_block_frame, RandomEffect};
use crate::effects::test::{test_color, test_next, TestEffect};
use crate::effects::typing_ripple::{lemma_ripple_frame_len, ripple_frame, ripple_step, TypingRippleEffect};
use crate::frame::{solid, LedData, LED_SIZE};

verus! {

/// A live effect instance, one variant per kind.
pub enum ActiveEffect {
    Test(TestEffect),
    Rainbow(RainbowEffect),
    Random(RandomEffect),
    Coding(CodingEffect),
    MusicVisualiser,
    TypingRipple(TypingRippleEffect),
}

/// What the outside world handed in for one tick: the signal that the active
/// effect is driven by, read before the tick.
pub enum TickInput {
    /// No outside signal was read.
    Nothing,
    /// The editor's current mode.
    EditorMode(Mode),
    /// The time now, and how many keys were released since the last tick.
    Keys { now_ms: u64, releases: usize },
    /// A frame computed from the audio spectrum.
    Spectrum(Vec<Color>),
    /// The outside signal could not be read.
    SignalFailed,
}

/// A spectrum frame spans the strip; one that does not is a hard error of
/// the caller's, never truncated or padded here.
pub open spec fn spectrum_fits(input: TickInput) -> bool {
    input matches TickInput::Spectrum(f) ==> f@.len() == LED_SIZE
}

/// The kind of a live effect.
pub open spec fn kind_of(e: ActiveEffect) -> ClientType {
    match e {
        ActiveEffect::Test(_) => ClientType::TestEffect,
        ActiveEffect::Rainbow(_) => ClientType::RainbowEffect,
        ActiveEffect::Random(_) => ClientType::RandomEffect,
        ActiveEffect::Coding(_) => ClientType::CodingEffect,
        ActiveEffect::MusicVisualiser => ClientType::MusicVisualiserEffect,
        ActiveEffect::TypingRipple(_) => ClientType::TypingRippleEffect,
    }
}

/// The least time between two updates of an effect of kind `k`.
pub open spec fn delay_of(k: ClientType) -> u64 {
    match k {
        ClientType::TestEffect => 1000,
        ClientType::RandomEffect => 1000,
        ClientType::MusicVisualiserEffect => 0,
        _ => DEFAULT_DELAY_MS,
    }
}

/// Every frame that a live effect can produce holds `LED_SIZE` pixels.
pub open spec fn effect_wf(e: ActiveEffect) -> bool {
    match e {
        ActiveEffect::Rainbow(r) => r.wf() && r.gradient().len() == LED_SIZE,
        _ => true,
    }
}

/// A freshly constructed effect of kind `k`; a rainbow rotates `gradient`.
pub open spec fn is_fresh(e: ActiveEffect, k: ClientType, gradient: Seq<Color>) -> bool {
    &&& kind_of(e) == k
    &&& effect_wf(e)
    &&& match e {
        ActiveEffect::Test(t) => t.step() == 0,
        ActiveEffect::Rainbow(r) => r.gradient() == gradient && r.offset() == 0,
        ActiveEffect::Coding(c) => c.last_mode() is None,
        ActiveEffect::TypingRipple(t) => t.ripples().len() == 0,
        _ => true,
    }
}

/// One update of effect `before`, given `input`: the effect becomes `after`
/// and the update returns `r`.
pub open spec fn update_spec(
    before: ActiveEffect,
    input: TickInput,
    after: ActiveEffect,
    r: Result<Option<LedData>, EffectError>,
) -> bool {
    match before {
        ActiveEffect::Test(t) => {
            &&& after matches ActiveEffect::Test(t2) && t2.step() == test_next(t.step())
            &&& r matches Ok(Some(f)) && f@ == solid(test_color(t.step()), LED_SIZE as nat)
        },
        ActiveEffect::Rainbow(e) => {
            &&& after matches ActiveEffect::Rainbow(e2) && e2.wf() && e2.gradient() == e.gradient()
                && e2.offset() == next_offset(e.offset(), e.gradient().len())
            &&& r matches Ok(Some(f)) && f@ == rotate_right(e.gradient(), e.offset())
        },
        ActiveEffect::Random(_) => {
            &&& after is Random
            &&& r matches Ok(Some(f)) && is_random_block_frame(f@)
        },
        ActiveEffect::Coding(c) => match input {
            TickInput::EditorMode(m) => {
                &&& after matches ActiveEffect::Coding(c2) && c2.last_mode() == Some(m)
                &&& c.last_mode() == Some(m) ==> r == Ok::<Option<LedData>, EffectError>(None)
                &&& c.last_mode() != Some(m) ==> (r matches Ok(Some(f)) && f@ == solid(
                    mode_color(m),
                    LED_SIZE as nat,
                ))
            },
            _ => after == before && r == Err::<Option<LedData>, EffectError>(
                EffectError::SignalUnavailable,
            ),
        },
        ActiveEffect::MusicVisualiser => {
            &&& after is MusicVisualiser
            &&& match input {
                TickInput::Spectrum(f) => r == Ok::<Option<LedData>, EffectError>(Some(f)),
                _ => r == Err::<Option<LedData>, EffectError>(EffectError::SignalUnavailable),
            }
        },
        ActiveEffect::TypingRipple(t) => match input {
            TickInput::Keys { now_ms, releases } => {
                &&& after matches ActiveEffect::TypingRipple(t2) && ripple_step(
                    t.ripples(),
                    now_ms,
                    releases,
                    t2.ripples(),
                )
                &&& after matches ActiveEffect::TypingRipple(t2) && r matches Ok(Some(f)) && f@
                    == ripple_frame(t2.ripples(), now_ms)
            },
            _ => after == before && r == Err::<Option<LedData>, EffectError>(
                EffectError::SignalUnavailable,
            ),
        },
    }
}

impl ActiveEffect {
    pub open spec fn kind(&self) -> ClientType {
        kind_of(*self)
    }

    /// The least time between two updates, in milliseconds.
    pub fn delay_ms(&self) -> (r: u64)
        ensures
            r == delay_of(self.kind()),
    {
        match self {
            ActiveEffect::Test(t) => t.get_config().delay_ms,
            ActiveEffect::Random(e) => e.get_config().delay_ms,
            ActiveEffect::MusicVisualiser => 0,
            _ => DEFAULT_DELAY_MS,
        }
    }

    /// Advances the effect by one step on `input`. An effect driven by an
    /// outside signal fails when that signal is missing.
    pub fn update(&mut self, input: TickInput) -> (r: Result<Option<LedData>, EffectError>)
        requires
            effect_wf(*old(self)),
            spectrum_fits(input),
        ensures
            update_spec(*old(self), input, *final(self), r),
            kind_of(*final(self)) == kind_of(*old(self)),
            effect_wf(*final(self)),
            r matches Ok(Some(f)) ==> f@.len() == LED_SIZE,
    {
        match self {
            ActiveEffect::Test(t) => t.update(),
            ActiveEffect::Rainbow(e) => e.update(),
            ActiveEffect::Random(e) => e.update(),
            ActiveEffect::Coding(c) => match input {
                TickInput::EditorMode(m) => Ok(c.observe(m)),
                _ => Err(EffectError::SignalUnavailable),
            },
            ActiveEffect::MusicVisualiser => match input {
                TickInput::Spectrum(f) => Ok(Some(f)),
                _ => Err(EffectError::SignalUnavailable),
            },
            ActiveEffect::TypingRipple(t) => match input {
                TickInput::Keys { now_ms, releases } => Ok(Some(t.update(now_ms, releases))),
                _ => Err(EffectError::SignalUnavailable),
            },
        }
    }
}

/// The kind that the daemon starts with: the one asked for, else the test
/// pattern when testing, else the rainbow.
pub open spec fn startup_kind(effect: Option<ClientType>, test: bool) -> ClientType {
    match effect {
        Some(k) => k,
        None => if test {
            ClientType::TestEffect
        } else {
            ClientType::RainbowEffect
        },
    }
}

/// What the command line asked for.
pub struct Args {
    pub effect: Option<ClientType>,
    pub web_status: Option<WebStatus>,
    pub test: bool,
    pub kill: bool,
}

fn copy_colors(v: &Vec<Color>) -> (r: Vec<Color>)
    ensures
        r@ == v@,
{
    let mut r: Vec<Color> = Vec::with_capacity(v.len());
    let mut i: usize = 0;
    while i < v.len()
        invariant
            i <= v@.len(),
            r@ == v@.subrange(0, i as int),
        decreases v@.len() - i,
    {
        r.push(v[i]);
        i = i + 1;
        assert(r@ =~= v@.subrange(0, i as int));
    }
    assert(v@.subrange(0, v@.len() as int) =~= v@);
    r
}

impl ClientType {
    /// A fresh effect of this kind; a rainbow rotates `gradient`.
    pub fn into_effect(self, gradient: &Vec<Color>) -> (r: ActiveEffect)
        requires
            gradient@.len() == LED_SIZE,
        ensures
            is_fresh(r, self, gradient@),
    {
        match self {
            ClientType::TestEffect => ActiveEffect::Test(TestEffect::new()),
            ClientType::RainbowEffect => ActiveEffect::Rainbow(RainbowEffect::new(copy_colors(gradient))),
            ClientType::RandomEffect => ActiveEffect::Random(RandomEffect::new()),
            ClientType::CodingEffect => ActiveEffect::Coding(CodingEffect::new()),
            ClientType::MusicVisualiserEffect => ActiveEffect::MusicVisualiser,
            ClientType::TypingRippleEffect => ActiveEffect::TypingRipple(TypingRippleEffect::new()),
        }
    }
}

/// The effect that the daemon starts with.
pub fn create_effect(args: &Args, gradient: &Vec<Color>) -> (r: ActiveEffect)
    requires
        gradient@.len() == LED_SIZE,
    ensures
        is_fresh(r, startup_kind(args.effect, args.test), gradient@),
{
    match args.effect {
        Some(kind) => kind.into_effect(gradient),
        None => {
            if args.test {
                ClientType::TestEffect.into_effect(gradient)
            } else {
                ClientType::RainbowEffect.into_effect(gradient)
            }
        },
    }
}

/// What one tick of the render loop produced, and how long to wait before
/// the next.
pub struct Tick {
    pub outcome: Result<Option<LedData>, EffectError>,
    pub delay_ms: u64,
}

/// The frame to transmit for an update's outcome: none when the update
/// failed or produced nothing.
pub open spec fn to_send(outcome: Result<Option<LedData>, EffectError>) -> Option<LedData> {
    match outcome {
        Ok(Some(f)) => Some(f),
        _ => None,
    }
}

impl Tick {
    /// The frame to hand to the transmitter, if any.
    pub fn transmission(self) -> (r: Option<LedData>)
        ensures
            r == to_send(self.outcome),
    {
        match self.outcome {
            Ok(Some(f)) => Some(f),
            _ => None,
        }
    }
}

/// The one holder of the active effect, shared by the render loop and the
/// command server; the rainbow gradient is kept for later switches.
pub struct EffectSlot {
    current: ActiveEffect,
    gradient: Vec<Color>,
}

/// One tick of the slot `before`: the active effect is updated once, and
/// the wait is the delay of its kind.
pub open spec fn tick_spec(before: EffectSlot, input: TickInput, after: EffectSlot, t: Tick) -> bool {
    &&& update_spec(before.current(), input, after.current(), t.outcome)
    &&& kind_of(after.current()) == kind_of(before.current())
    &&& after.gradient() == before.gradient()
    &&& t.delay_ms == delay_of(kind_of(before.current()))
}

/// A switch of the slot `before` to kind `k`: a fresh instance replaces the
/// active effect, whose state is dropped.
pub open spec fn set_effect_spec(before: EffectSlot, k: ClientType, after: EffectSlot) -> bool {
    &&& is_fresh(after.current(), k, before.gradient())
    &&& after.gradient() == before.gradient()
}

impl EffectSlot {
    /// The gradient spans the strip and the active effect is well formed.
    pub open spec fn wf(&self) -> bool {
        &&& self.gradient().len() == LED_SIZE
        &&& effect_wf(self.current())
    }

    pub closed spec fn current(&self) -> ActiveEffect {
        self.current
    }

    pub closed spec fn gradient(&self) -> Seq<Color> {
        self.gradient@
    }

    /// A slot that holds a fresh effect of kind `kind`.
    pub fn new(kind: ClientType, gradient: Vec<Color>) -> (r: EffectSlot)
        requires
            gradient@.len() == LED_SIZE,
        ensures
            r.wf(),
            is_fresh(r.current(), kind, gradient@),
            r.gradient() == gradient@,
    {
        let current = kind.into_effect(&gradient);
        EffectSlot { current, gradient }
    }

    /// A slot that holds `effect`.
    pub fn with_effect(effect: ActiveEffect, gradient: Vec<Color>) -> (r: EffectSlot)
        requires
            gradient@.len() == LED_SIZE,
            effect_wf(effect),
        ensures
            r.wf(),
            r.current() == effect,
            r.gradient() == gradient@,
    {
        EffectSlot { current: effect, gradient }
    }

    /// The kind of the active effect.
    pub fn kind(&self) -> (r: ClientType)
        ensures
            r == kind_of(self.current()),
    {
        match &self.current {
            ActiveEffect::Test(_) => ClientType::TestEffect,
            ActiveEffect::Rainbow(_) => ClientType::RainbowEffect,
            ActiveEffect::Random(_) => ClientType::RandomEffect,
            ActiveEffect::Coding(_) => ClientType::CodingEffect,
            ActiveEffect::MusicVisualiser => ClientType::MusicVisualiserEffect,
            ActiveEffect::TypingRipple(_) => ClientType::TypingRippleEffect,
        }
    }

    /// The configured delay of the active effect, in milliseconds.
    pub fn delay_ms(&self) -> (r: u64)
        ensures
            r == delay_of(kind_of(self.current())),
    {
        self.current.delay_ms()
    }

    /// Replaces the active effect by a fresh one of kind `kind`.
    pub fn set_effect(&mut self, kind: ClientType)
        requires
            old(self).wf(),
        ensures
            final(self).wf(),
            set_effect_spec(*old(self), kind, *final(self)),
    {
        self.current = kind.into_effect(&self.gradient);
    }

    /// One tick: reads the active effect's delay and updates it once on
    /// `input`.
    pub fn tick(&mut self, input: TickInput) -> (r: Tick)
        requires
            old(self).wf(),
            spectrum_fits(input),
        ensures
            final(self).wf(),
            tick_spec(*old(self), input, *final(self), r),
            r.outcome matches Ok(Some(f)) ==> f@.len() == LED_SIZE,
    {
        let delay_ms = self.current.delay_ms();
        let outcome = self.current.update(input);
        Tick { outcome, delay_ms }
    }
}

/// Every frame that a tick hands to the transmitter spans the strip,
/// whatever the effect and whatever came in.
pub proof fn lemma_frames_span_the_strip(before: EffectSlot, input: TickInput, after: EffectSlot, t: Tick)
    requires
        before.wf(),
        spectrum_fits(input),
        tick_spec(before, input, after, t),
    ensures
        to_send(t.outcome) matches Some(f) ==> f@.len() == LED_SIZE,
{
    match before.current() {
        ActiveEffect::Random(_) => {
            if let Ok(Some(f)) = t.outcome {
                lemma_random_block_frame(f@);
            }
        },
        ActiveEffect::TypingRipple(_) => {
            if let TickInput::Keys { now_ms, releases } = input {
                if let ActiveEffect::TypingRipple(t2) = after.current() {
                    lemma_ripple_frame_len(t2.ripples(), now_ms);
                }
            }
        },
        _ => {},
    }
}

/// Once a switch to kind `k` has returned, the next tick updates a fresh
/// instance of kind `k`, at the cadence of `k`, and never the effect that was
/// active before.
pub proof fn lemma_switch_then_tick(
    s0: EffectSlot,
    k: ClientType,
    s1: EffectSlot,
    input: TickInput,
    s2: EffectSlot,
    t: Tick,
)
    requires
        s0.wf(),
        set_effect_spec(s0, k, s1),
        tick_spec(s1, input, s2, t),
    ensures
        is_fresh(s1.current(), k, s0.gradient()),
        update_spec(s1.current(), input, s2.current(), t.outcome),
        kind_of(s2.current()) == k,
        t.delay_ms == delay_of(k),
{
}

/// A tick whose update produced no frame, or failed, transmits nothing.
pub proof fn lemma_no_frame_no_transmission(before: EffectSlot, input: TickInput, after: EffectSlot, t: Tick)
    requires
        tick_spec(before, input, after, t),
        !(t.outcome matches Ok(Some(_))),
    ensures
        to_send(t.outcome) is None,
{
}

/// An editor-mode effect that is shown the mode it last showed produces no
/// frame, so nothing is transmitted for that tick.
pub proof fn lemma_unchanged_mode_transmits_nothing(
    before: EffectSlot,
    m: Mode,
    after: EffectSlot,
    t: Tick,
)
    requires
        before.current() matches ActiveEffect::Coding(c) && c.last_mode() == Some(m),
        tick_spec(before, TickInput::EditorMode(m), after, t),
    ensures
        to_send(t.outcome) is None,
{
}

} // verus!
