//! Development-environment orchestrator core: the verified decision logic
//! behind a supervisor that boots external daemons, polls them for readiness,
//! joins several concurrent setup flows into one all-or-nothing operation,
//! and hands the result to an out-of-process caller through on-disk
//! readiness artifacts.

use vstd::prelude::*;

pub mod cli;
pub mod config;
pub mod envfile;
pub mod flow;
pub mod poll;
pub mod procs;
pub mod shutdown;

verus! {

/// True of bytes that may appear in an ASCII decimal rendering of a number.
pub open spec fn is_ascii_digit(b: u8) -> bool {
    0x30 <= b <= 0x39
}

/// Compares two byte vectors for equality of contents.
pub fn bytes_eq(a: &Vec<u8>, b: &Vec<u8>) -> (r: bool)
    ensures
        r == (a@ == b@),
{
    if a.len() != b.len() {
        assert(a@.len() != b@.len());
        return false;
    }
    let mut i: usize = 0;
    while i < a.len()
        invariant
            i <= a.len(),
            a.len() == b.len(),
            forall|j: int| 0 <= j < i ==> a@[j] == b@[j],
        decreases a.len() - i,
    {
        if a[i] != b[i] {
            return false;
        }
        i += 1;
    }
    assert(a@ =~= b@);
    true
}

} // verus!
