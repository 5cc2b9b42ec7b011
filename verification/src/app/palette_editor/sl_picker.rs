use vstd::prelude::*;
use crate::system::{writes_to_raw, Sys};
use crate::led::spec_sets;
use crate::settings::{custom_offset, Settings};
use super::color::{hsv_to_rgb, scale_color, spec_hsv_to_rgb, spec_scale_color};
use super::BACK_BUTTON;

verus! {

pub const VALUE_MIN: u8 = 4;

/// What a press on the saturation/lightness picker asks for.
#[derive(Copy, Clone, PartialEq, Eq, Structural, Debug)]
pub enum Action {
    NoAction,
    Back,
    Select { saturation: u8, lightness: u8 },
}

/// Saturation (6-bit) of a grid column 0..8: 0 to 63 evenly.
pub open spec fn spec_col_to_saturation6(col: u8) -> u8 {
    ((col * 63) / 7) as u8
}

pub fn col_to_saturation6(col: u8) -> (r: u8)
    requires
        col < 8,
    ensures
        r == spec_col_to_saturation6(col),
        r <= 63,
{
    (((col as u16) * 63) / 7) as u8
}

/// Lightness (6-bit) of a grid row 0..8: 4 to 63 evenly.
pub open spec fn spec_row_to_lightness6(row: u8) -> u8 {
    (VALUE_MIN + (row * 59) / 7) as u8
}

pub fn row_to_lightness6(row: u8) -> (r: u8)
    requires
        row < 8,
    ensures
        r == spec_row_to_lightness6(row),
        r <= 63,
{
    let scaled: u16 = ((row as u16) * 59) / 7;
    assert(scaled <= 59);
    VALUE_MIN + scaled as u8
}

/// The picker's LED writes for a hue at a fade factor: lightness by row,
/// saturation by column, then the back button.
pub open spec fn sl_picker_frame(hue: u8, factor: u8) -> Seq<(u8, u32)> {
    Seq::new(
        64,
        |i: int| {
            let row = (i / 8) as u8;
            let col = (i % 8) as u8;
            (
                ((row + 1) * 10 + (col + 1)) as u8,
                spec_scale_color(
                    spec_hsv_to_rgb(hue, (spec_col_to_saturation6(col) * 4) as u8, (spec_row_to_lightness6(row) * 4) as u8),
                    factor,
                ),
            )
        },
    ).push((BACK_BUTTON, spec_scale_color(0xff2000, factor)))
}

pub fn render(sys: &mut Sys, hue: u8, factor: u8)
    requires
        old(sys).wf(),
    ensures
        final(sys).leds_now(
            old(sys),
            spec_sets(old(sys).leds@, old(sys).driver.leds@, writes_to_raw(old(sys).rotation, sl_picker_frame(hue, factor))),
        ),
{
    let ghost cells = Seq::new(
        64,
        |i: int| {
            let row = (i / 8) as u8;
            let col = (i % 8) as u8;
            (
                ((row + 1) * 10 + (col + 1)) as u8,
                spec_scale_color(
                    spec_hsv_to_rgb(hue, (spec_col_to_saturation6(col) * 4) as u8, (spec_row_to_lightness6(row) * 4) as u8),
                    factor,
                ),
            )
        },
    );
    let mut writes: Vec<(u8, u32)> = Vec::new();
    let mut row: u8 = 0;
    while row < 8
        invariant
            row <= 8,
            writes@ == cells.take(row * 8),
            cells.len() == 64,
            cells == Seq::new(
                64,
                |i: int| {
                    let row = (i / 8) as u8;
                    let col = (i % 8) as u8;
                    (
                        ((row + 1) * 10 + (col + 1)) as u8,
                        spec_scale_color(
                            spec_hsv_to_rgb(hue, (spec_col_to_saturation6(col) * 4) as u8, (spec_row_to_lightness6(row) * 4) as u8),
                            factor,
                        ),
                    )
                },
            ),
        decreases 8 - row,
    {
        let lightness = row_to_lightness6(row) * 4;
        let mut col: u8 = 0;
        while col < 8
            invariant
                row < 8,
                col <= 8,
                lightness == spec_row_to_lightness6(row) * 4,
                writes@ == cells.take(row * 8 + col),
                cells.len() == 64,
                cells == Seq::new(
                    64,
                    |i: int| {
                        let row = (i / 8) as u8;
                        let col = (i % 8) as u8;
                        (
                            ((row + 1) * 10 + (col + 1)) as u8,
                            spec_scale_color(
                                spec_hsv_to_rgb(hue, (spec_col_to_saturation6(col) * 4) as u8, (spec_row_to_lightness6(row) * 4) as u8),
                                factor,
                            ),
                        )
                    },
                ),
            decreases 8 - col,
        {
            let saturation = col_to_saturation6(col) * 4;
            let pad = (row + 1) * 10 + (col + 1);
            writes.push((pad, scale_color(hsv_to_rgb(hue, saturation, lightness), factor)));
            proof {
                let k = row * 8 + col;
                assert((k / 8) as u8 == row && (k % 8) as u8 == col);
                assert(writes@ =~= cells.take(k + 1));
            }
            col = col + 1;
        }
        row = row + 1;
    }
    writes.push((BACK_BUTTON, scale_color(0xff2000, factor)));
    assert(writes@ =~= sl_picker_frame(hue, factor));
    sys.led_sets(writes.as_slice());
}

/// Back on the back button; on a grid pad the saturation of its column and
/// the lightness of its row (both times 4); nothing elsewhere.
pub open spec fn spec_handle_press(index: u8) -> Action {
    let row = index / 10;
    let col = index % 10;
    if index == BACK_BUTTON {
        Action::Back
    } else if !(1 <= row <= 8 && 1 <= col <= 8) {
        Action::NoAction
    } else {
        Action::Select {
            saturation: (spec_col_to_saturation6((col - 1) as u8) * 4) as u8,
            lightness: (spec_row_to_lightness6((row - 1) as u8) * 4) as u8,
        }
    }
}

pub fn handle_press(index: u8) -> (r: Action)
    ensures
        r == spec_handle_press(index),
{
    if index == BACK_BUTTON {
        return Action::Back;
    }
    let row = index / 10;
    let col = index % 10;
    if !(1 <= row && row <= 8) || !(1 <= col && col <= 8) {
        return Action::NoAction;
    }
    Action::Select { saturation: col_to_saturation6(col - 1) * 4, lightness: row_to_lightness6(row - 1) * 4 }
}

/// The custom palette being edited: the selected one, or the first custom
/// slot when a built-in palette is selected.
pub open spec fn edited_slot(palette: u8) -> int {
    let p = if palette < 4 { 0 } else { palette - 4 };
    if p < 2 { p } else { 2 }
}

pub fn edited_slot_exec(palette: u8) -> (r: usize)
    ensures
        r == edited_slot(palette),
        r < 3,
{
    let p = palette.saturating_sub(4);
    (if p < 2 { p } else { 2 }) as usize
}

/// Stores a picked color as entry `index` of the edited palette, channels
/// taken from 8 to 6 bits.
pub fn store(settings: &mut Settings, index: u8, hue: u8, saturation: u8, lightness: u8)
    requires
        old(settings).wf(),
        index < 128,
    ensures
        final(settings).wf(),
        ({
            let color = spec_hsv_to_rgb(hue, saturation, lightness);
            let slot = edited_slot(old(settings).palette);
            final(settings).custom_palette@ == old(settings).custom_palette@.update(
                custom_offset(slot, 0, index as int),
                (((color >> 16u32) & 0xff) as u8) / 4,
            ).update(custom_offset(slot, 1, index as int), (((color >> 8u32) & 0xff) as u8) / 4).update(
                custom_offset(slot, 2, index as int),
                ((color & 0xff) as u8) / 4,
            )
        }),
        final(settings).palette == old(settings).palette,
        final(settings).velocity_enabled == old(settings).velocity_enabled,
        final(settings).velocity_curve == old(settings).velocity_curve,
        final(settings).aftertouch_mode == old(settings).aftertouch_mode,
        final(settings).aftertouch_curve == old(settings).aftertouch_curve,
        final(settings).brightness == old(settings).brightness,
{
    let color = hsv_to_rgb(hue, saturation, lightness);
    let slot = edited_slot_exec(settings.palette);
    let i = index as usize;
    settings.set_custom_value(slot, 0, i, ((color >> 16) & 0xff) as u8 / 4);
    settings.set_custom_value(slot, 1, i, ((color >> 8) & 0xff) as u8 / 4);
    settings.set_custom_value(slot, 2, i, (color & 0xff) as u8 / 4);
}

} // verus!
