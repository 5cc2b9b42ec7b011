use vstd::prelude::*;
use crate::system::{writes_to_raw, Sys};
use crate::led::{min63, spec_sets};
use crate::settings::Settings;
use super::color::{rgb, scale_color, spec_rgb, spec_scale_color};
use super::sl_picker::{edited_slot, edited_slot_exec};
use super::{BACK_BUTTON, NEXT_BUTTON};

verus! {

/// What a press on the palette overview asks for.
#[derive(Copy, Clone, PartialEq, Eq, Structural, Debug)]
pub enum Action {
    NoAction,
    PreviousPage,
    NextPage,
    Select(u8),
}

/// Grid pad of a local entry (0..64) of a half page: entries 0..32 fill
/// the left four columns, 32..64 the right four, in rows from the bottom.
pub open spec fn spec_local_to_pad(local: u8) -> u8 {
    if local < 32 {
        ((local / 4 + 1) * 10 + (local % 4 + 1)) as u8
    } else {
        let j = local - 32;
        ((j / 4 + 1) * 10 + (j % 4 + 5)) as u8
    }
}

pub fn local_to_pad(local: u8) -> (r: u8)
    requires
        local < 64,
    ensures
        r == spec_local_to_pad(local),
{
    if local < 32 {
        return (local / 4 + 1) * 10 + (local % 4 + 1);
    }
    let j = local - 32;
    (j / 4 + 1) * 10 + (j % 4 + 5)
}

/// Local entry of a grid pad, 0xff off the 8x8 grid.
pub open spec fn spec_pad_to_local(pad: u8) -> u8 {
    let row = pad / 10;
    let col = pad % 10;
    if !(1 <= row <= 8 && 1 <= col <= 8) {
        0xff
    } else if col - 1 < 4 {
        ((row - 1) * 4 + (col - 1)) as u8
    } else {
        (32 + (row - 1) * 4 + (col - 5)) as u8
    }
}

pub fn pad_to_local(pad: u8) -> (r: u8)
    ensures
        r == spec_pad_to_local(pad),
        r != 0xff ==> r < 64,
{
    let row = pad / 10;
    let col = pad % 10;
    if !(1 <= row && row <= 8) || !(1 <= col && col <= 8) {
        return 0xff;
    }
    let row = row - 1;
    let col = col - 1;
    if col < 4 {
        row * 4 + col
    } else {
        32 + row * 4 + (col - 4)
    }
}

/// The edited palette's entry as an 8-bit RGB color (6-bit channels times
/// 4).
pub open spec fn spec_palette_entry_rgb(settings: &Settings, index: u8) -> u32 {
    let slot = edited_slot(settings.palette);
    spec_rgb(
        (min63(settings.custom(slot, 0, index as int)) * 4) as u8,
        (min63(settings.custom(slot, 1, index as int)) * 4) as u8,
        (min63(settings.custom(slot, 2, index as int)) * 4) as u8,
    )
}

pub fn get_palette_rgb(settings: &Settings, index: u8) -> (r: u32)
    requires
        settings.wf(),
        index < 128,
    ensures
        r == spec_palette_entry_rgb(settings, index),
{
    let slot = edited_slot_exec(settings.palette);
    let i = index as usize;
    let c0 = settings.custom_value(slot, 0, i);
    let c1 = settings.custom_value(slot, 1, i);
    let c2 = settings.custom_value(slot, 2, i);
    rgb(
        (if c0 < 63 { c0 } else { 63 }) * 4,
        (if c1 < 63 { c1 } else { 63 }) * 4,
        (if c2 < 63 { c2 } else { 63 }) * 4,
    )
}

/// The overview's LED writes for a half page at a fade factor: its 64
/// entries, then the page buttons, bright where they lead somewhere.
pub open spec fn overview_frame(settings: &Settings, half_page: u8, factor: u8) -> Seq<(u8, u32)> {
    Seq::new(
        64,
        |i: int| (spec_local_to_pad(i as u8), spec_scale_color(spec_palette_entry_rgb(settings, (half_page * 64 + i) as u8), factor)),
    ).push((BACK_BUTTON, spec_scale_color(if half_page > 0 { 0x303030 } else { 0x060606 }, factor))).push(
        (NEXT_BUTTON, spec_scale_color(if half_page < 1 { 0x303030 } else { 0x060606 }, factor)),
    )
}

pub fn render(sys: &mut Sys, half_page: u8, factor: u8)
    requires
        old(sys).wf(),
        half_page <= 1,
    ensures
        final(sys).leds_now(
            old(sys),
            spec_sets(old(sys).leds@, old(sys).driver.leds@, writes_to_raw(old(sys).rotation, overview_frame(&old(sys).settings, half_page, factor))),
        ),
{
    let base = half_page * 64;
    let mut writes: Vec<(u8, u32)> = Vec::new();
    let mut i: u8 = 0;
    while i < 64
        invariant
            i <= 64,
            half_page <= 1,
            base == half_page * 64,
            sys.wf(),
            writes@ == Seq::new(
                i as nat,
                |k: int| (spec_local_to_pad(k as u8), spec_scale_color(spec_palette_entry_rgb(&sys.settings, (half_page * 64 + k) as u8), factor)),
            ),
        decreases 64 - i,
    {
        let color = get_palette_rgb(&sys.settings, base + i);
        writes.push((local_to_pad(i), scale_color(color, factor)));
        i = i + 1;
        assert(writes@ =~= Seq::new(
            i as nat,
            |k: int| (spec_local_to_pad(k as u8), spec_scale_color(spec_palette_entry_rgb(&sys.settings, (half_page * 64 + k) as u8), factor)),
        ));
    }
    writes.push((BACK_BUTTON, scale_color(if half_page > 0 { 0x303030 } else { 0x060606 }, factor)));
    writes.push((NEXT_BUTTON, scale_color(if half_page < 1 { 0x303030 } else { 0x060606 }, factor)));
    assert(writes@ =~= overview_frame(&sys.settings, half_page, factor));
    sys.led_sets(writes.as_slice());
}

/// Page buttons turn the half page where there is one to turn to; a grid
/// pad selects its entry, except entry 0 (black, not editable).
pub open spec fn spec_handle_press(index: u8, half_page: u8) -> Action {
    if index == BACK_BUTTON && half_page > 0 {
        Action::PreviousPage
    } else if index == NEXT_BUTTON && half_page < 1 {
        Action::NextPage
    } else if spec_pad_to_local(index) == 0xff {
        Action::NoAction
    } else {
        let selected = spec_pad_to_local(index) + half_page * 64;
        if selected == 0 { Action::NoAction } else { Action::Select(selected as u8) }
    }
}

pub fn handle_press(index: u8, half_page: u8) -> (r: Action)
    requires
        half_page <= 1,
    ensures
        r == spec_handle_press(index, half_page),
        r matches Action::Select(s) ==> 0 < s < 128,
{
    if index == BACK_BUTTON && half_page > 0 {
        return Action::PreviousPage;
    }
    if index == NEXT_BUTTON && half_page < 1 {
        return Action::NextPage;
    }
    let local = pad_to_local(index);
    if local == 0xff {
        return Action::NoAction;
    }
    let selected_index = local + half_page * 64;
    if selected_index == 0 {
        Action::NoAction
    } else {
        Action::Select(selected_index)
    }
}

} // verus!
