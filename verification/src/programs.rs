//! The identities of the programs that take part in creating a tree.

use vstd::prelude::*;
use crate::address::Address;

verus! {

/// The tree-logic program, at `BGUMAp9Gq7iTEuizy4pqaxsTyUCBK68MDfK752saRPUY`.
pub const MPL_BUBBLEGUM_ID: [u8; 32] = [
    152, 139, 128, 235, 121, 53, 40, 105, 178, 36, 116, 95, 89, 221, 191, 138,
    38, 88, 202, 19, 220, 104, 129, 33, 38, 53, 28, 174, 7, 193, 165, 165,
];

/// The append-only log program, at `noopb9bkMVfRPU8AsbpTUg8AQkHtKwMYZiFUjNRtMmV`.
pub const SPL_NOOP_ID: [u8; 32] = [
    11, 188, 15, 192, 187, 71, 202, 47, 116, 196, 17, 46, 148, 171, 19, 207,
    163, 198, 52, 229, 220, 23, 234, 203, 3, 205, 26, 35, 205, 126, 120, 124,
];

/// The data-compression program, at `cmtDvXumGCrqC1Age74AVPhSRVXJMd8PJS91L8KbNCK`.
pub const SPL_ACCOUNT_COMPRESSION_ID: [u8; 32] = [
    9, 42, 19, 238, 149, 196, 28, 186, 8, 166, 127, 90, 198, 126, 141, 247,
    225, 218, 17, 98, 94, 29, 100, 19, 127, 143, 79, 35, 131, 3, 127, 20,
];

/// The system program, at `11111111111111111111111111111111`.
pub const SYSTEM_PROGRAM_ID: [u8; 32] = [
    0, 0, 0, 0, 0, 0, 0, 0, 0, 0, 0, 0, 0, 0, 0, 0,
    0, 0, 0, 0, 0, 0, 0, 0, 0, 0, 0, 0, 0, 0, 0, 0,
];

} // verus!
