use vstd::prelude::*;
use crate::system::Sys;
use crate::led::spec_sets;
use crate::system::writes_to_raw;
use super::color::{hsv_to_rgb, scale_color, spec_hsv_to_rgb, spec_scale_color};
use super::BACK_BUTTON;

verus! {

pub const HUE_MAX: u8 = 252;
pub const HUE_STEP: u8 = 4;

/// What a press on the hue picker asks for.
#[derive(Copy, Clone, PartialEq, Eq, Structural, Debug)]
pub enum Action {
    NoAction,
    Back,
    Select(u8),
}

/// Grid pad of hue position `pos` (0..64): rows of eight from the bottom.
pub open spec fn spec_sel_pos_to_pad(pos: u8) -> u8 {
    ((pos / 8 + 1) * 10 + (pos % 8 + 1)) as u8
}

pub fn sel_pos_to_pad(pos: u8) -> (r: u8)
    requires
        pos < 64,
    ensures
        r == spec_sel_pos_to_pad(pos),
{
    (pos / 8 + 1) * 10 + (pos % 8 + 1)
}

/// Hue position of a grid pad, 0xff off the 8x8 grid.
pub open spec fn spec_pad_to_sel_pos(pad: u8) -> u8 {
    let row = pad / 10;
    let col = pad % 10;
    if 1 <= row <= 8 && 1 <= col <= 8 { ((row - 1) * 8 + (col - 1)) as u8 } else { 0xff }
}

pub fn pad_to_sel_pos(pad: u8) -> (r: u8)
    ensures
        r == spec_pad_to_sel_pos(pad),
        r != 0xff ==> r < 64,
{
    let row = pad / 10;
    let col = pad % 10;
    if !(1 <= row && row <= 8) || !(1 <= col && col <= 8) {
        return 0xff;
    }
    (row - 1) * 8 + (col - 1)
}

/// The hue picker's LED writes at a fade factor: 64 hues over the grid,
/// then the back button.
pub open spec fn hue_picker_frame(factor: u8) -> Seq<(u8, u32)> {
    Seq::new(
        64,
        |i: int| (spec_sel_pos_to_pad(i as u8), spec_scale_color(spec_hsv_to_rgb((i * 4) as u8, HUE_MAX, HUE_MAX), factor)),
    ).push((BACK_BUTTON, spec_scale_color(0xff2000, factor)))
}

pub fn render(sys: &mut Sys, factor: u8)
    requires
        old(sys).wf(),
    ensures
        final(sys).leds_now(
            old(sys),
            spec_sets(old(sys).leds@, old(sys).driver.leds@, writes_to_raw(old(sys).rotation, hue_picker_frame(factor))),
        ),
{
    let mut writes: Vec<(u8, u32)> = Vec::new();
    let mut i: u8 = 0;
    while i < 64
        invariant
            i <= 64,
            writes@ == Seq::new(
                i as nat,
                |k: int| (spec_sel_pos_to_pad(k as u8), spec_scale_color(spec_hsv_to_rgb((k * 4) as u8, HUE_MAX, HUE_MAX), factor)),
            ),
        decreases 64 - i,
    {
        let color = hsv_to_rgb(i * 4, HUE_MAX, HUE_MAX);
        writes.push((sel_pos_to_pad(i), scale_color(color, factor)));
        i = i + 1;
        assert(writes@ =~= Seq::new(
            i as nat,
            |k: int| (spec_sel_pos_to_pad(k as u8), spec_scale_color(spec_hsv_to_rgb((k * 4) as u8, HUE_MAX, HUE_MAX), factor)),
        ));
    }
    writes.push((BACK_BUTTON, scale_color(0xff2000, factor)));
    assert(writes@ =~= hue_picker_frame(factor));
    sys.led_sets(writes.as_slice());
}

/// Back on the back button, the hue of a grid pad (position times 4), or
/// nothing.
pub open spec fn spec_handle_press(index: u8) -> Action {
    if index == BACK_BUTTON {
        Action::Back
    } else if spec_pad_to_sel_pos(index) == 0xff {
        Action::NoAction
    } else {
        Action::Select((spec_pad_to_sel_pos(index) * HUE_STEP) as u8)
    }
}

pub fn handle_press(index: u8) -> (r: Action)
    ensures
        r == spec_handle_press(index),
{
    if index == BACK_BUTTON {
        return Action::Back;
    }
    let pos = pad_to_sel_pos(index);
    if pos == 0xff {
        Action::NoAction
    } else {
        Action::Select(pos * HUE_STEP)
    }
}

} // verus!
