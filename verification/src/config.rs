//! Instruction-set variants, their behavioural switches and display modes.

use vstd::prelude::*;

verus! {

/// The instruction set a machine interprets.
#[derive(Copy, Clone, Debug, PartialEq, Eq, Structural)]
pub enum Chip8Variant {
    /// The base CHIP-8 instruction set.
    Chip8,
    /// The extended SUPER-CHIP instruction set.
    SuperChip,
}

/// The behavioural differences between variants, one switch per quirk.
///
/// Instruction bodies consult these switches and never the variant itself.
#[derive(Copy, Clone, Debug, PartialEq, Eq, Structural)]
pub struct Quirks {
    /// `8XY1`, `8XY2`, `8XY3`: the logic operations zero `VF` afterwards.
    pub vf_reset: bool,
    /// `FX55`, `FX65`: a bulk transfer advances the index register by one per
    /// register moved.
    pub memory: bool,
    /// `8XY6`, `8XYE`: a shift works in place on `VX` and ignores `VY`; when
    /// unset, `VY` is copied into `VX` before the shift.
    pub shifting: bool,
    /// `BNNN`: the jump adds the register selected by the address's high
    /// nibble; when unset, it always adds `V0`.
    pub jumping: bool,
}

/// The resolution of the framebuffer.
#[derive(Copy, Clone, Debug, PartialEq, Eq, Structural)]
pub enum DisplayMode {
    /// 64 by 32 cells.
    LoRes,
    /// 128 by 64 cells.
    HiRes,
}

impl Quirks {
    /// The switches that `variant` fixes.
    pub open spec fn for_variant(variant: Chip8Variant) -> Quirks {
        match variant {
            Chip8Variant::Chip8 => Quirks {
                vf_reset: true,
                memory: true,
                shifting: false,
                jumping: false,
            },
            Chip8Variant::SuperChip => Quirks {
                vf_reset: false,
                memory: false,
                shifting: true,
                jumping: true,
            },
        }
    }

    /// Builds the switches that `variant` fixes.
    pub fn new_variant(variant: Chip8Variant) -> (quirks: Self)
        ensures
            quirks == Quirks::for_variant(variant),
    {
        match variant {
            Chip8Variant::Chip8 => Self {
                vf_reset: true,
                memory: true,
                shifting: false,
                jumping: false,
            },
            Chip8Variant::SuperChip => Self {
                vf_reset: false,
                memory: false,
                shifting: true,
                jumping: true,
            },
        }
    }
}

impl DisplayMode {
    /// The number of columns of a framebuffer in this mode.
    pub open spec fn columns(self) -> int {
        match self {
            DisplayMode::LoRes => 64,
            DisplayMode::HiRes => 128,
        }
    }

    /// The number of rows of a framebuffer in this mode.
    pub open spec fn rows(self) -> int {
        match self {
            DisplayMode::LoRes => 32,
            DisplayMode::HiRes => 64,
        }
    }

    /// The number of columns of a framebuffer in this mode.
    pub fn width(self) -> (w: usize)
        ensures
            w == self.columns(),
    {
        match self {
            DisplayMode::LoRes => 64,
            DisplayMode::HiRes => 128,
        }
    }

    /// The number of rows of a framebuffer in this mode.
    pub fn height(self) -> (h: usize)
        ensures
            h == self.rows(),
    {
        match self {
            DisplayMode::LoRes => 32,
            DisplayMode::HiRes => 64,
        }
    }
}

/// The number of instructions the driver steps per rendered frame: 16 for the
/// extended variant, 8 for the base variant.
pub open spec fn steps_per_frame(variant: Chip8Variant) -> int {
    if variant == Chip8Variant::SuperChip {
        16
    } else {
        8
    }
}

/// The number of instructions to step per rendered frame under `variant`.
pub fn ticks_per_frame(variant: Chip8Variant) -> (ticks: usize)
    ensures
        ticks == steps_per_frame(variant),
{
    match variant {
        Chip8Variant::SuperChip => 16,
        _ => 8,
    }
}

} // verus!
