//! Log levels for SoftEther.

use vstd::prelude::*;

verus! {

pub const ERROR: i32 = 0;
pub const WARNING: i32 = 1;
pub const INFO: i32 = 2;
pub const DEBUG: i32 = 3;

} // verus!
