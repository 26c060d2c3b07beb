//! Values and filters for trying the components out.

use vstd::prelude::*;
use crate::primitives::Balance;

verus! {

/// The number of smallest units in `d` whole units. The product always fits.
pub fn dollar(d: u32) -> (r: Balance)
    ensures
        r == d * 1_000_000_000_000_000_000,
{
    let d: Balance = d as Balance;
    assert(d * 1_000_000_000_000_000_000 <= Balance::MAX) by (nonlinear_arith)
        requires
            d <= 0xffff_ffff,
    ;
    d * 1_000_000_000_000_000_000
}

/// A call to the system itself.
#[derive(Clone, Debug, PartialEq, Eq)]
pub enum SystemCall {
    /// Does nothing but carry a remark.
    Remark { remark: Vec<u8> },
    /// Sets the number of heap pages.
    SetHeapPages { pages: u64 },
    /// Sets the code of the runtime.
    SetCode { code: Vec<u8> },
}

/// A call.
#[derive(Clone, Debug, PartialEq, Eq)]
pub enum Call {
    System(SystemCall),
}

/// Lets remarks through, and no other call to the system.
pub struct BaseFilter;

impl BaseFilter {
    /// Whether the filter lets `c` through.
    pub fn contains(c: &Call) -> (r: bool)
        ensures
            r == (c matches Call::System(SystemCall::Remark { .. })),
    {
        match c {
            Call::System(SystemCall::Remark { .. }) => true,
            Call::System(_) => false,
        }
    }
}

/// The surroundings in which the components are tried out.
#[derive(Clone, Copy, Debug, PartialEq, Eq, Structural)]
pub struct TestExternalities {
    /// The number of the block that is being built.
    pub block_number: u64,
}

/// Builds the surroundings.
pub struct ExtBuilder;

impl Default for ExtBuilder {
    fn default() -> (r: Self) {
        ExtBuilder
    }
}

impl ExtBuilder {
    /// Surroundings in which the first block is being built.
    pub fn build(self) -> (r: TestExternalities)
        ensures
            r.block_number == 1,
    {
        TestExternalities { block_number: 1 }
    }
}

} // verus!
