//! Core pieces of a NES emulator and of the Pong demo machine, with their
//! behaviour stated as contracts and proved.
use vstd::prelude::*;

pub mod cpu;
pub mod joypad;
pub mod machine;
pub mod mapper;
pub mod pong;
pub mod sprites;
pub mod ppu;
pub mod step;
pub mod timing;
pub mod trace;

verus! {

/// A vector of `n` zero bytes.
pub(crate) fn zeroed(n: usize) -> (r: Vec<u8>)
    ensures
        r@ == Seq::new(n as nat, |i: int| 0u8),
{
    let mut v: Vec<u8> = Vec::with_capacity(n);
    let mut i: usize = 0;
    while i < n
        invariant
            i <= n,
            v@ == Seq::new(i as nat, |j: int| 0u8),
        decreases n - i,
    {
        v.push(0u8);
        i = i + 1;
        assert(v@ =~= Seq::new(i as nat, |j: int| 0u8));
    }
    v
}

} // verus!
