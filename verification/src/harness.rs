//! Execution-harness state.
//!
//! One translated program runs against a fixed-size guest memory and
//! register file, both zeroed at the start of every iteration, and an
//! instruction counter that accumulates across iterations.

use vstd::prelude::*;

verus! {

/// The context one translated program runs in: a 256-byte guest
/// memory, a 16-byte register file, and the accumulated dynamic
/// instruction count.
pub struct ExecContext {
    pub memory: Vec<u8>,
    pub registers: Vec<u8>,
    pub instruction_count: usize,
}

impl ExecContext {
    /// Structural well-formedness: the fixed buffer sizes.
    pub open spec fn wf(&self) -> bool {
        &&& self.memory@.len() == 256
        &&& self.registers@.len() == 16
    }

    /// A fresh context: zeroed buffers, zero count.
    pub fn new() -> (r: Self)
        ensures
            r.wf(),
            r.memory@ == Seq::new(256, |i: int| 0u8),
            r.registers@ == Seq::new(16, |i: int| 0u8),
            r.instruction_count == 0,
    {
        let r = ExecContext { memory: vec![0u8; 256], registers: vec![0u8; 16], instruction_count: 0 };
        proof {
            assert(r.memory@ =~= Seq::new(256, |i: int| 0u8));
            assert(r.registers@ =~= Seq::new(16, |i: int| 0u8));
        }
        r
    }

    /// Zeroes the guest memory and the register file for the next
    /// iteration; the accumulated instruction count is kept.
    pub fn reset_for_iteration(&mut self)
        ensures
            final(self).wf(),
            final(self).memory@ == Seq::new(256, |i: int| 0u8),
            final(self).registers@ == Seq::new(16, |i: int| 0u8),
            final(self).instruction_count == old(self).instruction_count,
    {
        self.memory = vec![0u8; 256];
        self.registers = vec![0u8; 16];
        proof {
            assert(self.memory@ =~= Seq::new(256, |i: int| 0u8));
            assert(self.registers@ =~= Seq::new(16, |i: int| 0u8));
        }
    }

    /// Adds one run's dynamic instruction count to the accumulator;
    /// the buffers are untouched.
    pub fn record_instructions(&mut self, n: usize)
        requires
            old(self).instruction_count + n <= usize::MAX,
        ensures
            final(self).instruction_count == old(self).instruction_count + n,
            final(self).memory == old(self).memory,
            final(self).registers == old(self).registers,
    {
        self.instruction_count = self.instruction_count + n;
    }
}

} // verus!
