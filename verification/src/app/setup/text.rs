use vstd::prelude::*;
use crate::system::{writes_to_raw, Sys};
use crate::led::spec_sets;

verus! {

/// A page title drawn on the top four rows: bit `x` of line `y` lights the
/// LED `88 - 10 * y - x` in the primary color where the color mask has bit
/// `x`, in the secondary color elsewhere.
#[derive(Copy, Clone)]
pub struct Text {
    pub line_mask: [u8; 4],
    pub color_mask: u8,
    pub primary_color: u32,
    pub secondary_color: u32,
}

/// The title's LED writes for the cells `0..n` (cell `n` is line `n / 8`,
/// column `n % 8`), in drawing order.
pub open spec fn text_writes(t: Text, n: int) -> Seq<(u8, u32)>
    decreases n,
{
    if n <= 0 {
        Seq::empty()
    } else {
        let prev = text_writes(t, n - 1);
        let y = (n - 1) / 8;
        let x = ((n - 1) % 8) as u8;
        if t.line_mask@[y] & (1u8 << x) == 0 {
            prev
        } else {
            prev.push((
                (88 - y * 10 - x) as u8,
                if t.color_mask & (1u8 << x) != 0 { t.primary_color } else { t.secondary_color },
            ))
        }
    }
}

impl Text {
    pub fn new(line_mask: [u8; 4], color_mask: u8, primary_color: u32, secondary_color: u32) -> (r: Self)
        ensures
            r.line_mask@ == line_mask@,
            r.color_mask == color_mask,
            r.primary_color == primary_color,
            r.secondary_color == secondary_color,
    {
        Text { line_mask, color_mask, primary_color, secondary_color }
    }

    pub fn draw(&self, sys: &mut Sys)
        requires
            old(sys).wf(),
        ensures
            final(sys).leds_now(
                old(sys),
                spec_sets(old(sys).leds@, old(sys).driver.leds@, writes_to_raw(old(sys).rotation, text_writes(*self, 32))),
            ),
    {
        let mut writes: Vec<(u8, u32)> = Vec::new();
        let mut y: u8 = 0;
        while y < 4
            invariant
                y <= 4,
                writes@ == text_writes(*self, y * 8),
            decreases 4 - y,
        {
            let line = self.line_mask[y as usize];
            let base_pos: u8 = 88 - y * 10;
            let mut x: u8 = 0;
            while x < 8
                invariant
                    y < 4,
                    x <= 8,
                    line == self.line_mask@[y as int],
                    base_pos == 88 - y * 10,
                    writes@ == text_writes(*self, y * 8 + x),
                decreases 8 - x,
            {
                proof {
                    assert((y * 8 + x) / 8 == y as int && ((y * 8 + x) % 8) as u8 == x);
                }
                if (line & (1u8 << x)) != 0 {
                    let color = if (self.color_mask & (1u8 << x)) != 0 {
                        self.primary_color
                    } else {
                        self.secondary_color
                    };
                    writes.push((base_pos - x, color));
                }
                x = x + 1;
            }
            y = y + 1;
        }
        sys.led_sets(writes.as_slice());
    }
}

} // verus!
