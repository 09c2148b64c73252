//! How the tray icon looks: an up or down arrow whose colour encodes the
//! current phase. Drawing the pixels is the program's job.

use vstd::prelude::*;

use crate::config::Phase;

verus! {

/// A colour as red, green and blue channels.
#[derive(Clone, Copy, Debug, PartialEq, Eq, Structural)]
pub struct Rgb {
    pub red: u8,
    pub green: u8,
    pub blue: u8,
}

/// The colour and direction of the tray arrow.
#[derive(Clone, Copy, Debug, PartialEq, Eq, Structural)]
pub struct IconStyle {
    pub color: Rgb,
    /// Up while standing, down while sitting.
    pub point_up: bool,
}

/// Green (standing).
pub open spec fn green() -> Rgb {
    Rgb { red: 0x2E, green: 0xCC, blue: 0x71 }
}

/// Blue (sitting).
pub open spec fn blue() -> Rgb {
    Rgb { red: 0x34, green: 0x98, blue: 0xDB }
}

/// Grey (paused).
pub open spec fn grey() -> Rgb {
    Rgb { red: 0x9E, green: 0x9E, blue: 0x9E }
}

/// Green up-arrow while standing, blue down-arrow while sitting; grey (in the
/// phase's direction) while paused.
pub open spec fn style_for(phase: Phase, paused: bool) -> IconStyle {
    IconStyle {
        color: if paused {
            grey()
        } else {
            match phase {
                Phase::Standing => green(),
                Phase::Sitting => blue(),
            }
        },
        point_up: phase == Phase::Standing,
    }
}

/// The arrow to draw for the current phase / paused state.
pub fn icon_style(phase: Phase, paused: bool) -> (r: IconStyle)
    ensures
        r == style_for(phase, paused),
{
    let color = if paused {
        Rgb { red: 0x9E, green: 0x9E, blue: 0x9E }
    } else {
        match phase {
            Phase::Standing => Rgb { red: 0x2E, green: 0xCC, blue: 0x71 },
            Phase::Sitting => Rgb { red: 0x34, green: 0x98, blue: 0xDB },
        }
    };
    let point_up = match phase {
        Phase::Standing => true,
        Phase::Sitting => false,
    };
    IconStyle { color, point_up }
}

/// The icon sizes (in pixels, square) offered to the panel, which picks
/// whichever fits best.
pub fn icon_sizes() -> (r: [i32; 3])
    ensures
        r@ == seq![22i32, 32i32, 48i32],
{
    [22, 32, 48]
}

/// What the icon tells: while paused it is grey whatever the phase, a grey
/// that no running phase uses; while running, the two phases have different
/// colours; the arrow points up exactly while standing, paused or not.
pub proof fn lemma_icon_shows_pause_and_phase(p: Phase, q: Phase)
    ensures
        style_for(p, true).color == (Rgb { red: 0x9E, green: 0x9E, blue: 0x9E }),
        style_for(p, true).color == style_for(q, true).color,
        style_for(p, true).color != style_for(q, false).color,
        p != q ==> style_for(p, false).color != style_for(q, false).color,
        style_for(p, true).point_up == style_for(p, false).point_up,
        style_for(p, false).point_up == (p == Phase::Standing),
{
}

} // verus!
