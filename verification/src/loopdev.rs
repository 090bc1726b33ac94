//! Loop-device path derivation.
//!
//! The kernel's loop control device hands out a free index; the device node
//! for index `n` then lives at `/dev/loop<n>`. Deriving that path from the
//! index is pure computation and is verified here; the ioctl itself is
//! performed by the surrounding process.

use vstd::prelude::*;
use crate::digits::{dec_digits, push_decimal};

verus! {

/// The bytes of `"/dev/loop"`.
pub open spec fn loop_prefix() -> Seq<u8> {
    seq![47u8, 100u8, 101u8, 118u8, 47u8, 108u8, 111u8, 111u8, 112u8]
}

/// The bytes of the device node path `/dev/loop<n>`.
pub open spec fn loop_path_bytes(n: nat) -> Seq<u8> {
    loop_prefix() + dec_digits(n)
}

/// Derives the device node path for loop index `n`.
pub fn loop_device_path(n: u64) -> (r: Vec<u8>)
    ensures
        r@ == loop_path_bytes(n as nat),
{
    let mut v: Vec<u8> = vec![47u8, 100, 101, 118, 47, 108, 111, 111, 112];
    assert(v@ =~= loop_prefix());
    push_decimal(n, &mut v);
    v
}

} // verus!
