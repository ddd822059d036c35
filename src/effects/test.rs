//! Cycles the whole strip through red, green, blue and white.
use vstd::prelude::*;
use crate::color::Color;
use crate::effects::{Effect, EffectConfig, EffectError};
use crate::frame::{solid, solid_frame, LedData, LED_SIZE};

verus! {

/// The color shown by the step that follows step `prev`.
pub open spec fn test_color(prev: nat) -> Color {
    if prev == 0 {
        Color(255, 0, 0)
    } else if prev == 1 {
        Color(0, 255, 0)
    } else if prev == 2 {
        Color(0, 0, 255)
    } else {
        Color(255, 255, 255)
    }
}

/// The step that follows step `prev`.
pub open spec fn test_next(prev: nat) -> nat {
    if prev < 3 {
        prev + 1
    } else {
        0
    }
}

pub struct TestEffect {
    iterator: usize,
}

impl TestEffect {
    /// The step last shown; 0 before the first.
    pub closed spec fn step(&self) -> nat {
        self.iterator as nat
    }

    pub fn new() -> (r: TestEffect)
        ensures
            r.step() == 0,
    {
        TestEffect { iterator: 0 }
    }
}

impl Effect for TestEffect {
    fn update(&mut self) -> (r: Result<Option<LedData>, EffectError>)
        ensures
            r is Ok,
            r->Ok_0 is Some,
            r->Ok_0->Some_0@ == solid(test_color(old(self).step()), LED_SIZE as nat),
            final(self).step() == test_next(old(self).step()),
    {
        let colour = if self.iterator == 0 {
            Color::red()
        } else if self.iterator == 1 {
            Color::green()
        } else if self.iterator == 2 {
            Color::blue()
        } else {
            Color::white()
        };
        if self.iterator < 3 {
            self.iterator = self.iterator + 1;
        } else {
            self.iterator = 0;
        }
        Ok(Some(solid_frame(colour)))
    }

    fn get_config(&self) -> (r: EffectConfig)
        ensures
            r.delay_ms == 1000,
    {
        EffectConfig { delay_ms: 1000 }
    }
}

} // verus!
