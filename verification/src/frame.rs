//! Ambient brightness from one camera frame.
//!
//! The luma of a pixel is the weighted sum of its channels, with the weights
//! of ITU-R BT.709 in ten-thousandths. The mean luma of the frame, as a
//! fraction of the luma of a white pixel, is the position of the result
//! between the configured floor and one. The mean of byte channels always
//! lies in the unit interval, so it needs no clamping.

use vstd::prelude::*;
use crate::rounding::{lemma_product_bounds, lemma_round_div_bounds, round_div, rounded_quotient};
use crate::units::{Level, UNIT};

verus! {

/// Weight of the red channel, in ten-thousandths.
pub const RED_WEIGHT: u32 = 2126;

/// Weight of the green channel, in ten-thousandths.
pub const GREEN_WEIGHT: u32 = 7152;

/// Weight of the blue channel, in ten-thousandths.
pub const BLUE_WEIGHT: u32 = 722;

/// Luma of a white pixel: the three weights together, times the largest
/// channel value.
pub const WHITE_LUMA: u32 = 2_550_000;

/// A raster of RGB pixels, three bytes each, row by row.
#[derive(Debug, PartialEq, Eq)]
pub struct RasterFrame {
    width: u32,
    height: u32,
    data: Vec<u8>,
}

/// The luma of one pixel, between zero and [`WHITE_LUMA`].
pub open spec fn pixel_luma(red: u8, green: u8, blue: u8) -> int {
    RED_WEIGHT * red + GREEN_WEIGHT * green + BLUE_WEIGHT * blue
}

/// The luma of the first `count` pixels of `data` together.
pub open spec fn luma_sum(data: Seq<u8>, count: nat) -> int
    decreases count,
{
    if count == 0 {
        0
    } else {
        let at = 3 * (count - 1);
        luma_sum(data, (count - 1) as nat) + pixel_luma(data[at], data[at + 1], data[at + 2])
    }
}

/// The brightness, in millionths, that a frame of the bytes `data` gives
/// with the floor `min`: the floor plus the mean luma's share of what is left
/// up to one.
pub open spec fn frame_brightness(data: Seq<u8>, min: int) -> int {
    let count = data.len() / 3;
    if count == 0 {
        min
    } else {
        min + round_div(luma_sum(data, count) * (UNIT - min), count * WHITE_LUMA)
    }
}

/// The luma of any `count` pixels lies between zero and that of as many
/// white pixels.
pub proof fn lemma_luma_sum_bounds(data: Seq<u8>, count: nat)
    ensures
        0 <= luma_sum(data, count) <= count * WHITE_LUMA,
    decreases count,
{
    if count > 0 {
        lemma_luma_sum_bounds(data, (count - 1) as nat);
    }
}

/// A frame never gives less than the floor nor more than one.
pub proof fn frame_brightness_in_range(data: Seq<u8>, min: int)
    requires
        0 <= min <= UNIT,
    ensures
        min <= frame_brightness(data, min) <= UNIT,
{
    let count = data.len() / 3;
    if count > 0 {
        let total = luma_sum(data, count);
        let room = UNIT - min;
        let whole = count * WHITE_LUMA;
        lemma_luma_sum_bounds(data, count);
        lemma_product_bounds(total, room, whole, room);
        assert(whole * room == room * whole) by (nonlinear_arith);
        assert(0 * whole == 0);
        lemma_round_div_bounds(total * room, whole, 0, room);
    }
}

/// A frame in which every channel of every pixel has the value `channel`
/// has `count` times the luma of one such pixel.
proof fn lemma_luma_sum_uniform(data: Seq<u8>, count: nat, channel: u8)
    requires
        3 * count <= data.len(),
        forall|i: int| 0 <= i < data.len() ==> data[i] == channel,
    ensures
        luma_sum(data, count) == count * (10_000 * channel),
    decreases count,
{
    if count > 0 {
        lemma_luma_sum_uniform(data, (count - 1) as nat, channel);
        let one = 10_000 * channel;
        let before = (count - 1) as nat;
        assert(before * one + one == count * one) by (nonlinear_arith)
            requires
                before + 1 == count,
        ;
    } else {
        assert(count * (10_000 * channel) == 0) by (nonlinear_arith)
            requires
                count == 0,
        ;
    }
}

/// A white frame gives full brightness, whatever the floor.
pub proof fn white_frame_is_full(data: Seq<u8>, min: int)
    requires
        0 <= min <= UNIT,
        data.len() >= 3,
        forall|i: int| 0 <= i < data.len() ==> data[i] == 255,
    ensures
        frame_brightness(data, min) == UNIT,
{
    let count = data.len() / 3;
    let room = UNIT - min;
    let whole = count * WHITE_LUMA;
    lemma_luma_sum_uniform(data, count, 255);
    assert(whole * room == room * whole) by (nonlinear_arith);
    lemma_round_div_bounds(whole * room, whole, room, room);
}

/// A black frame gives exactly the floor.
pub proof fn black_frame_is_floor(data: Seq<u8>, min: int)
    requires
        0 <= min <= UNIT,
        forall|i: int| 0 <= i < data.len() ==> data[i] == 0,
    ensures
        frame_brightness(data, min) == min,
{
    let count = data.len() / 3;
    if count > 0 {
        let whole = count * WHITE_LUMA;
        lemma_luma_sum_uniform(data, count, 0);
        assert(0 * (UNIT - min) == 0);
        assert(0 * whole == 0);
        lemma_round_div_bounds(0, whole, 0, 0);
    }
}

/// A frame whose mean luma is half that of white gives the midpoint between
/// the floor and one.
pub proof fn half_lit_frame_is_midpoint(data: Seq<u8>, min: int)
    requires
        0 <= min <= UNIT,
        data.len() >= 3,
        2 * luma_sum(data, data.len() / 3) == (data.len() / 3) * WHITE_LUMA,
    ensures
        frame_brightness(data, min) == min + round_div(UNIT - min, 2),
{
    let count = data.len() / 3;
    let total = luma_sum(data, count);
    let room = UNIT - min;
    let whole = count * WHITE_LUMA;
    // both quotients are (2 * room + 2) / 4 once the common factor is taken out
    assert(2 * (total * room) + whole == total * (2 * room + 2)) by (nonlinear_arith)
        requires
            2 * total == whole,
    ;
    assert(2 * whole == total * 4) by (nonlinear_arith)
        requires
            2 * total == whole,
    ;
    assert(total > 0);
    vstd::arithmetic::div_mod::lemma_div_multiples_vanish_quotient(total, 2 * room + 2, 4);
    assert(total * (2 * room + 2) == (2 * room + 2) * total) by (nonlinear_arith);
    assert(total * 4 == 4 * total);
    assert(round_div(total * room, whole) == (total * (2 * room + 2)) / (total * 4));
}

/// Two estimates that both meet the estimator's contract for the same frame
/// and floor are the same level.
pub proof fn estimate_from_frame_is_deterministic(
    first: Level,
    second: Level,
    data: Seq<u8>,
    min: int,
)
    requires
        first@ == frame_brightness(data, min),
        second@ == frame_brightness(data, min),
    ensures
        first == second,
{
    Level::equal_by_view(first, second);
}

impl RasterFrame {
    #[verifier::type_invariant]
    spec fn well_formed(self) -> bool {
        &&& self.width > 0
        &&& self.height > 0
        &&& self.data@.len() == 3 * self.width * self.height
    }

    /// The bytes of the frame: red, green and blue of each pixel in turn.
    pub closed spec fn view(self) -> Seq<u8> {
        self.data@
    }

    /// The number of pixels in a row.
    pub closed spec fn spec_width(self) -> int {
        self.width as int
    }

    /// The number of rows.
    pub closed spec fn spec_height(self) -> int {
        self.height as int
    }

    /// A frame of `width` by `height` pixels over `data`, if there is at
    /// least one pixel and `data` holds exactly three bytes for each.
    pub fn new(width: u32, height: u32, data: Vec<u8>) -> (frame: Option<RasterFrame>)
        ensures
            frame is Some <==> width > 0 && height > 0 && data@.len() == 3 * width * height,
            frame matches Some(f) ==> f@ == data@ && f.spec_width() == width && f.spec_height()
                == height,
    {
        proof {
            lemma_product_bounds(width as int, height as int, u32::MAX as int, u32::MAX as int);
        }
        let expected: u128 = 3 * (width as u128 * height as u128);
        assert(expected == 3 * width * height) by (nonlinear_arith)
            requires
                expected == 3 * (width * height),
        ;
        if width > 0 && height > 0 && data.len() as u128 == expected {
            Some(RasterFrame { width, height, data })
        } else {
            None
        }
    }

    /// The number of pixels in a row.
    pub fn width(&self) -> (width: u32)
        ensures
            width == self.spec_width(),
    {
        self.width
    }

    /// The number of rows.
    pub fn height(&self) -> (height: u32)
        ensures
            height == self.spec_height(),
    {
        self.height
    }
}

/// The brightness that `frame` gives with the floor `min`.
pub fn estimate_from_frame(frame: &RasterFrame, min: Level) -> (brightness: Level)
    ensures
        brightness@ == frame_brightness(frame@, min@),
        min@ <= brightness@ <= UNIT,
{
    let floor: u32 = min.micros();
    proof {
        use_type_invariant(frame);
        frame_brightness_in_range(frame@, min@);
        assert(frame.data@.len() >= 3) by (nonlinear_arith)
            requires
                frame.width > 0,
                frame.height > 0,
                frame.data@.len() == 3 * frame.width * frame.height,
        ;
    }
    let len: usize = frame.data.len();
    let count: usize = len / 3;
    let mut total: u128 = 0;
    let mut i: usize = 0;
    while i < count
        invariant
            i <= count,
            len == frame.data@.len(),
            count == len / 3,
            total == luma_sum(frame.data@, i as nat),
            total <= i * WHITE_LUMA,
        decreases count - i,
    {
        let red: u8 = frame.data[3 * i];
        let green: u8 = frame.data[3 * i + 1];
        let blue: u8 = frame.data[3 * i + 2];
        total = total + (RED_WEIGHT as u128 * red as u128 + GREEN_WEIGHT as u128 * green as u128
            + BLUE_WEIGHT as u128 * blue as u128);
        i = i + 1;
    }
    let room: u32 = UNIT - floor;
    let whole: u128 = count as u128 * WHITE_LUMA as u128;
    proof {
        lemma_product_bounds(total as int, room as int, whole as int, UNIT as int);
        assert(whole * room == room * whole) by (nonlinear_arith);
        assert(0 * whole == 0);
        lemma_product_bounds(total as int, room as int, whole as int, room as int);
        lemma_round_div_bounds(total * room, whole as int, 0, room as int);
    }
    let share: u128 = rounded_quotient(total * room as u128, whole);
    Level::new(floor + share as u32)
}

} // verus!
