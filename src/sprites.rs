//! Sprite evaluation: which sprites of OAM a scanline shows, and the
//! sprite-overflow flag as the hardware sets it.
use vstd::prelude::*;
use crate::ppu::OAM_SIZE;

verus! {

/// Sprites a scanline can hold.
pub const MAX_LINE_SPRITES: usize = 8;

/// Whether a sprite whose top is `y` covers `scanline`, for sprites `h` lines tall.
pub open spec fn in_range(y: u8, scanline: int, h: int) -> bool {
    0 <= scanline - y < h
}

/// Evaluation from sprite `n` on, with `sel` already chosen and `m` the byte
/// within a sprite that the search reads once eight are chosen. Up to eight
/// sprites are taken in OAM order; after that the search for a ninth reads
/// byte `m` of each following sprite as its Y, and moves `m` on (modulo 4)
/// together with the sprite on every miss, as the hardware does.
pub open spec fn eval_spec(oam: Seq<u8>, scanline: int, h: int, n: nat, sel: Seq<u8>, m: nat) -> (Seq<u8>, bool)
    decreases 64 - n,
{
    if n >= 64 {
        (sel, false)
    } else if sel.len() < 8 {
        if in_range(oam[4 * n as int], scanline, h) {
            eval_spec(oam, scanline, h, n + 1, sel.push(n as u8), 0)
        } else {
            eval_spec(oam, scanline, h, n + 1, sel, 0)
        }
    } else {
        if in_range(oam[4 * n as int + m as int], scanline, h) {
            (sel, true)
        } else {
            eval_spec(oam, scanline, h, n + 1, sel, (m + 1) % 4)
        }
    }
}

/// Indices of the sprites shown on `scanline` (at most eight, in OAM order)
/// and whether the overflow flag is set; `tall` selects 8x16 sprites.
pub fn evaluate_sprites(oam: &Vec<u8>, scanline: u16, tall: bool) -> (r: (Vec<u8>, bool))
    requires
        oam@.len() == OAM_SIZE,
    ensures
        (r.0@, r.1) == eval_spec(
            oam@,
            scanline as int,
            if tall { 16int } else { 8int },
            0,
            Seq::empty(),
            0,
        ),
        r.0@.len() <= 8,
{
    let h: u16 = if tall { 16 } else { 8 };
    let ghost hh: int = if tall { 16int } else { 8int };
    let mut sel: Vec<u8> = Vec::new();
    let mut n: usize = 0;
    let mut m: usize = 0;
    while n < 64
        invariant
            n <= 64,
            m < 4,
            h == hh,
            hh == (if tall { 16int } else { 8int }),
            sel@.len() <= 8,
            sel@.len() < 8 ==> m == 0,
            oam@.len() == OAM_SIZE,
            eval_spec(oam@, scanline as int, hh, 0, Seq::empty(), 0) == eval_spec(
                oam@,
                scanline as int,
                hh,
                n as nat,
                sel@,
                m as nat,
            ),
        decreases 64 - n,
    {
        if sel.len() < 8 {
            let y = oam[4 * n];
            if scanline >= y as u16 && scanline - (y as u16) < h {
                sel.push(n as u8);
            }
            n = n + 1;
        } else {
            let y = oam[4 * n + m];
            if scanline >= y as u16 && scanline - (y as u16) < h {
                assert(in_range(oam@[4 * n as int + m as int], scanline as int, hh));
                assert(eval_spec(oam@, scanline as int, hh, n as nat, sel@, m as nat) == (sel@, true));
                return (sel, true);
            }
            n = n + 1;
            m = (m + 1) % 4;
        }
    }
    (sel, false)
}

} // verus!
