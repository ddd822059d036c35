//! Lights the strip in the color of the editor's mode, and sends a frame
//! only when the mode changes. Reading the mode from the editor is the
//! caller's part.
use vstd::prelude::*;
use vstd::string::StrSliceExecFns;
use crate::color::Color;
use crate::frame::{solid, solid_frame, LedData, LED_SIZE};

verus! {

#[derive(Clone, Copy, Debug, PartialEq, Eq, Structural)]
pub enum Mode {
    Normal,
    Insert,
    Visual,
    Command,
}

/// The mode that the editor's mode code stands for.
pub open spec fn mode_of(code: Seq<char>) -> Mode {
    if code == seq!['n'] {
        Mode::Normal
    } else if code == seq!['i'] {
        Mode::Insert
    } else if code == seq!['v'] || code == seq!['V'] {
        Mode::Visual
    } else {
        Mode::Command
    }
}

/// The color that stands for a mode.
pub open spec fn mode_color(m: Mode) -> Color {
    match m {
        Mode::Normal => Color(0, 0, 255),
        Mode::Insert => Color(0, 255, 0),
        Mode::Visual => Color(160, 32, 240),
        Mode::Command => Color(255, 127, 0),
    }
}

impl Mode {
    /// Reads an editor mode code: `n`, `i`, `v` or `V`; any other is a command.
    pub fn from_code(code: &str) -> (m: Mode)
        ensures
            m == mode_of(code@),
    {
        if code.unicode_len() != 1 {
            proof {
                assert(code@ != seq!['n'] && code@ != seq!['i'] && code@ != seq!['v'] && code@ != seq!['V']);
            }
            return Mode::Command;
        }
        let c = code.get_char(0);
        proof {
            assert(code@ =~= seq![c]);
        }
        if c == 'n' {
            Mode::Normal
        } else if c == 'i' {
            Mode::Insert
        } else if c == 'v' || c == 'V' {
            Mode::Visual
        } else {
            Mode::Command
        }
    }

    pub fn color(self) -> (c: Color)
        ensures
            c == mode_color(self),
    {
        match self {
            Mode::Normal => Color::blue(),
            Mode::Insert => Color::green(),
            Mode::Visual => Color::purple(),
            Mode::Command => Color::orange(),
        }
    }
}

pub struct CodingEffect {
    last_mode: Option<Mode>,
}

impl CodingEffect {
    /// The mode last shown, if any.
    pub closed spec fn last_mode(&self) -> Option<Mode> {
        self.last_mode
    }

    pub fn new() -> (r: CodingEffect)
        ensures
            r.last_mode() is None,
    {
        CodingEffect { last_mode: None }
    }

    /// Takes the editor's current mode: a frame in its color when it differs
    /// from the mode last shown, nothing when it is the same.
    pub fn observe(&mut self, mode: Mode) -> (r: Option<LedData>)
        ensures
            old(self).last_mode() == Some(mode) ==> r is None,
            old(self).last_mode() != Some(mode) ==> r is Some && r->Some_0@ == solid(
                mode_color(mode),
                LED_SIZE as nat,
            ),
            final(self).last_mode() == Some(mode),
    {
        if let Some(last) = self.last_mode {
            if last == mode {
                return None;
            }
        }
        self.last_mode = Some(mode);
        Some(solid_frame(mode.color()))
    }
}

} // verus!
