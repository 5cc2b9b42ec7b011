use vstd::prelude::*;

verus! {

pub const PALETTE_SIZE: usize = 128;

/// A 128-entry color palette of 6-bit (r, g, b) channels, indexed by velocity.
pub struct Palette {
    colors: Vec<(u8, u8, u8)>,
}

impl View for Palette {
    type V = Seq<(u8, u8, u8)>;

    closed spec fn view(&self) -> Seq<(u8, u8, u8)> {
        self.colors@
    }
}

impl Palette {
    pub open spec fn wf(&self) -> bool {
        self@.len() == PALETTE_SIZE
    }

    /// The color for a velocity; velocities are taken modulo 128.
    pub open spec fn spec_rgb(&self, velocity: u8) -> (u8, u8, u8) {
        self@[(velocity % 128) as int]
    }

    /// Builds a palette from its 128 colors; `None` for any other length.
    pub fn from_colors(colors: Vec<(u8, u8, u8)>) -> (r: Option<Self>)
        ensures
            (r is Some) == (colors@.len() == PALETTE_SIZE),
            r matches Some(p) ==> p@ == colors@,
    {
        if colors.len() == PALETTE_SIZE {
            Some(Palette { colors })
        } else {
            None
        }
    }

    pub fn rgb(&self, velocity: u8) -> (r: (u8, u8, u8))
        requires
            self.wf(),
        ensures
            r == self.spec_rgb(velocity),
    {
        self.colors[(velocity % 128) as usize]
    }
}

/// The built-in palettes of the device.
pub struct Palettes {
    pub novation: Palette,
    pub mat1jaczyyy: Palette,
    pub mxos: Palette,
}

impl Palettes {
    pub open spec fn wf(&self) -> bool {
        &&& self.novation.wf()
        &&& self.mat1jaczyyy.wf()
        &&& self.mxos.wf()
    }
}

} // verus!
