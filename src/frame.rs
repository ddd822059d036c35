//! Frames: one color per pixel of the strip, and their encoding into the
//! channel bytes of a lighting-protocol packet.
use vstd::prelude::*;
use crate::color::Color;

verus! {

/// The number of pixels on the strip.
pub const LED_SIZE: usize = 170;

/// The universe that frames are addressed to.
pub const UNIVERSE: u16 = 1;

/// One color per pixel; a frame that leaves an effect holds `LED_SIZE` of them.
pub type LedData = Vec<Color>;

/// The frame in which every pixel has color `c`.
pub open spec fn solid(c: Color, n: nat) -> Seq<Color> {
    Seq::new(n, |i: int| c)
}

/// Takes a vector of exactly `LED_SIZE` colors as a frame.
pub fn vec_to_led_data(data: Vec<Color>) -> (r: LedData)
    requires
        data@.len() == LED_SIZE,
    ensures
        r@ == data@,
{
    data
}

/// The frame in which every one of the `LED_SIZE` pixels has color `c`.
pub fn solid_frame(c: Color) -> (r: LedData)
    ensures
        r@ == solid(c, LED_SIZE as nat),
{
    let mut v: Vec<Color> = Vec::with_capacity(LED_SIZE);
    let mut i: usize = 0;
    while i < LED_SIZE
        invariant
            i <= LED_SIZE,
            v@ == solid(c, i as nat),
        decreases LED_SIZE - i,
    {
        v.push(c);
        i = i + 1;
        assert(v@ =~= solid(c, i as nat));
    }
    v
}

/// The order in which a pixel's channels are written on the wire; it follows
/// the wiring of the fixture, not the color.
#[derive(Clone, Copy, Debug, PartialEq, Eq, Structural)]
pub enum ChannelOrder {
    Rgb,
    Rbg,
    Grb,
    Gbr,
    Brg,
    Bgr,
}

/// The `k`-th byte written for color `c` in order `o` (`k` is 0, 1 or 2).
pub open spec fn wire_channel(c: Color, o: ChannelOrder, k: int) -> u8 {
    let (x, y, z) = match o {
        ChannelOrder::Rgb => (c.0, c.1, c.2),
        ChannelOrder::Rbg => (c.0, c.2, c.1),
        ChannelOrder::Grb => (c.1, c.0, c.2),
        ChannelOrder::Gbr => (c.1, c.2, c.0),
        ChannelOrder::Brg => (c.2, c.0, c.1),
        ChannelOrder::Bgr => (c.2, c.1, c.0),
    };
    if k == 0 {
        x
    } else if k == 1 {
        y
    } else {
        z
    }
}

/// The packet payload for a frame: three bytes per pixel, in pixel order.
pub open spec fn wire_bytes(f: Seq<Color>, o: ChannelOrder) -> Seq<u8> {
    Seq::new(3 * f.len(), |i: int| wire_channel(f[i / 3], o, i % 3))
}

/// Why a frame was not sent.
#[derive(Clone, Copy, Debug, PartialEq, Eq, Structural)]
pub enum SendDataErr {
    /// The frame does not hold `LED_SIZE` pixels.
    IncorrectLength,
    /// The protocol's sender reported a failure.
    SacnError,
}

/// The three wire bytes of one pixel.
pub fn pixel_bytes(c: Color, o: ChannelOrder) -> (r: (u8, u8, u8))
    ensures
        r.0 == wire_channel(c, o, 0),
        r.1 == wire_channel(c, o, 1),
        r.2 == wire_channel(c, o, 2),
{
    match o {
        ChannelOrder::Rgb => (c.0, c.1, c.2),
        ChannelOrder::Rbg => (c.0, c.2, c.1),
        ChannelOrder::Grb => (c.1, c.0, c.2),
        ChannelOrder::Gbr => (c.1, c.2, c.0),
        ChannelOrder::Brg => (c.2, c.0, c.1),
        ChannelOrder::Bgr => (c.2, c.1, c.0),
    }
}

/// Encodes a frame into the payload of one packet. A frame of any length
/// but `LED_SIZE` is refused whole.
pub fn encode_frame(frame: &Vec<Color>, order: ChannelOrder) -> (r: Result<Vec<u8>, SendDataErr>)
    ensures
        frame@.len() != LED_SIZE <==> r == Err::<Vec<u8>, SendDataErr>(SendDataErr::IncorrectLength),
        frame@.len() == LED_SIZE ==> r is Ok,
        r is Ok ==> r->Ok_0@ == wire_bytes(frame@, order),
{
    if frame.len() != LED_SIZE {
        return Err(SendDataErr::IncorrectLength);
    }
    let mut out: Vec<u8> = Vec::with_capacity(3 * LED_SIZE);
    let mut i: usize = 0;
    while i < frame.len()
        invariant
            i <= frame@.len(),
            frame@.len() == LED_SIZE,
            out@.len() == 3 * i,
            forall|j: int| 0 <= j < 3 * i ==> #[trigger] out@[j] == wire_channel(frame@[j / 3], order, j % 3),
        decreases frame@.len() - i,
    {
        let (x, y, z) = pixel_bytes(frame[i], order);
        out.push(x);
        out.push(y);
        out.push(z);
        i = i + 1;
    }
    assert(out@ =~= wire_bytes(frame@, order));
    Ok(out)
}

} // verus!
