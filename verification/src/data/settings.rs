//! Game settings.

use vstd::prelude::*;
use crate::units::{clamp, MILLI};

verus! {

/// The player's settings. Volumes are in thousandths of full volume.
#[derive(Debug, Clone, Copy, PartialEq, Eq, Structural)]
pub struct Settings {
    pub master_volume: u32,
    pub sfx_volume: u32,
    pub music_volume: u32,
    pub fullscreen: bool,
    pub show_fps: bool,
    pub screen_shake: bool,
}

/// The product of two volumes, kept within `u32`.
pub open spec fn volume_product(a: u32, b: u32) -> u32 {
    clamp(a * b / (MILLI as int), 0, u32::MAX as int) as u32
}

/// The product of two volumes.
fn multiply_volumes(a: u32, b: u32) -> (r: u32)
    ensures
        r == volume_product(a, b),
{
    assert(0 <= a * b <= 0xffff_ffff * 0xffff_ffff) by (nonlinear_arith)
        requires
            0 <= a <= 0xffff_ffff,
            0 <= b <= 0xffff_ffff,
    ;
    let p: u64 = (a as u64) * (b as u64) / MILLI;
    if p > u32::MAX as u64 {
        u32::MAX
    } else {
        p as u32
    }
}

impl Settings {
    /// The settings of a first start: full master volume, effects at
    /// 80 %, music at 60 %, windowed, no frame counter, screen shake on.
    pub open spec fn initial() -> Settings {
        Settings {
            master_volume: 1000,
            sfx_volume: 800,
            music_volume: 600,
            fullscreen: false,
            show_fps: false,
            screen_shake: true,
        }
    }

    /// The settings of a first start.
    pub fn new() -> (s: Self)
        ensures
            s == Settings::initial(),
    {
        Settings {
            master_volume: 1000,
            sfx_volume: 800,
            music_volume: 600,
            fullscreen: false,
            show_fps: false,
            screen_shake: true,
        }
    }

    /// Volume at which effects play: master times effects.
    pub fn effective_sfx_volume(&self) -> (v: u32)
        ensures
            v == volume_product(self.master_volume, self.sfx_volume),
    {
        multiply_volumes(self.master_volume, self.sfx_volume)
    }

    /// Volume at which music plays: master times music.
    pub fn effective_music_volume(&self) -> (v: u32)
        ensures
            v == volume_product(self.master_volume, self.music_volume),
    {
        multiply_volumes(self.master_volume, self.music_volume)
    }
}

impl Default for Settings {
    fn default() -> (s: Self)
        ensures
            s == Settings::initial(),
    {
        Settings::new()
    }
}

} // verus!
