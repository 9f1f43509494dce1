//! Register programs: what the driver does to the controller's registers, as data.
//!
//! Every routine of the driver that touches registers is a function that computes a
//! sequence of [`RegOp`]s; the platform layer performs them with volatile accesses.
//! `run_ops` gives a sequence its meaning on a register file modelled as plain storage.
use vstd::prelude::*;

verus! {

/// One register access.
#[derive(PartialEq, Eq, Structural, Clone, Copy, Debug)]
pub enum RegOp {
    /// Store `value` into register `reg`.
    Write { reg: usize, value: u32 },
    /// Read register `reg` and store back `(old & !clear) | set`.
    Update { reg: usize, clear: u32, set: u32 },
    /// Read register `reg` until `value & mask == expected`.
    WaitUntil { reg: usize, mask: u32, expected: u32 },
    /// Read register `reg` and, when the value is nonzero, write it back (which clears
    /// the write-one-to-clear status bits that it holds).
    Acknowledge { reg: usize },
}

/// A register read: perform `ops`, then read register `reg`; the result is the value
/// read, masked with `mask`.
pub struct RegRead {
    pub ops: Vec<RegOp>,
    pub reg: usize,
    pub mask: u32,
}

/// `Write { reg, value }`.
pub open spec fn wr(reg: usize, value: u32) -> RegOp {
    RegOp::Write { reg, value }
}

/// `Update { reg, clear, set }`.
pub open spec fn upd(reg: usize, clear: u32, set: u32) -> RegOp {
    RegOp::Update { reg, clear, set }
}

/// `Acknowledge { reg }`.
pub open spec fn ack(reg: usize) -> RegOp {
    RegOp::Acknowledge { reg }
}

/// `WaitUntil { reg, mask, expected }`.
pub open spec fn wait(reg: usize, mask: u32, expected: u32) -> RegOp {
    RegOp::WaitUntil { reg, mask, expected }
}

/// The value that an `Update` stores, given the value it read.
pub open spec fn updated_value(old: u32, clear: u32, set: u32) -> u32 {
    (old & !clear) | set
}

/// A register file, as storage: the value held by each register address.
pub type RegFile = spec_fn(usize) -> u32;

/// The register file after one access.
pub open spec fn apply_op(regs: RegFile, op: RegOp) -> RegFile {
    match op {
        RegOp::Write { reg, value } => |r: usize| if r == reg { value } else { regs(r) },
        RegOp::Update { reg, clear, set } => |r: usize|
            if r == reg {
                updated_value(regs(reg), clear, set)
            } else {
                regs(r)
            },
        RegOp::WaitUntil { .. } => regs,
        RegOp::Acknowledge { .. } => regs,
    }
}

/// The register file after a sequence of accesses, in order.
pub open spec fn run_ops(regs: RegFile, ops: Seq<RegOp>) -> RegFile
    decreases ops.len(),
{
    if ops.len() == 0 {
        regs
    } else {
        run_ops(apply_op(regs, ops[0]), ops.drop_first())
    }
}

/// The register that an access touches.
pub open spec fn op_reg(op: RegOp) -> usize {
    match op {
        RegOp::Write { reg, .. } => reg,
        RegOp::Update { reg, .. } => reg,
        RegOp::WaitUntil { reg, .. } => reg,
        RegOp::Acknowledge { reg } => reg,
    }
}

/// Running two programs one after the other is running their concatenation.
pub proof fn lemma_run_ops_append(regs: RegFile, a: Seq<RegOp>, b: Seq<RegOp>)
    ensures
        run_ops(regs, a + b) == run_ops(run_ops(regs, a), b),
    decreases a.len(),
{
    if a.len() == 0 {
        assert(a + b =~= b);
    } else {
        assert((a + b).drop_first() =~= a.drop_first() + b);
        lemma_run_ops_append(apply_op(regs, a[0]), a.drop_first(), b);
    }
}

/// A program leaves alone every register that none of its accesses touches.
pub proof fn lemma_run_ops_frame(regs: RegFile, ops: Seq<RegOp>, r: usize)
    requires
        forall|i: int| 0 <= i < ops.len() ==> op_reg(#[trigger] ops[i]) != r,
    ensures
        run_ops(regs, ops)(r) == regs(r),
    decreases ops.len(),
{
    if ops.len() > 0 {
        assert(op_reg(ops[0]) != r);
        assert forall|i: int| 0 <= i < ops.drop_first().len() implies op_reg(#[trigger] ops.drop_first()[i]) != r by {
            assert(ops.drop_first()[i] == ops[i + 1]);
        }
        lemma_run_ops_frame(apply_op(regs, ops[0]), ops.drop_first(), r);
    }
}

/// After a program whose access number `j` writes `value` to register `r` and whose later
/// accesses do not touch `r`, register `r` holds `value`.
pub proof fn lemma_run_ops_last_write(regs: RegFile, ops: Seq<RegOp>, j: int, r: usize, value: u32)
    requires
        0 <= j < ops.len(),
        ops[j] == wr(r, value),
        forall|i: int| j < i < ops.len() ==> op_reg(#[trigger] ops[i]) != r,
    ensures
        run_ops(regs, ops)(r) == value,
    decreases ops.len(),
{
    let rest = ops.drop_first();
    if j == 0 {
        assert forall|i: int| 0 <= i < rest.len() implies op_reg(#[trigger] rest[i]) != r by {
            assert(rest[i] == ops[i + 1]);
        }
        lemma_run_ops_frame(apply_op(regs, ops[0]), rest, r);
    } else {
        assert(rest[j - 1] == ops[j]);
        assert forall|i: int| j - 1 < i < rest.len() implies op_reg(#[trigger] rest[i]) != r by {
            assert(rest[i] == ops[i + 1]);
        }
        lemma_run_ops_last_write(apply_op(regs, ops[0]), rest, j - 1, r, value);
    }
}

/// `old` with the bits of `mask` replaced by those of `value`.
pub open spec fn masked_update(old: u32, mask: u32, value: u32) -> u32 {
    (old & !mask) | (value & mask)
}

/// Writing a masked value keeps the bits outside the mask and takes those inside from
/// the value; doing it twice is doing it once.
pub proof fn lemma_masked_update(old: u32, mask: u32, value: u32)
    ensures
        masked_update(old, mask, value) & mask == value & mask,
        masked_update(old, mask, value) & !mask == old & !mask,
        masked_update(masked_update(old, mask, value), mask, value) == masked_update(old, mask, value),
{
    assert(((old & !mask) | (value & mask)) & mask == value & mask) by (bit_vector);
    assert(((old & !mask) | (value & mask)) & !mask == old & !mask) by (bit_vector);
    assert(((((old & !mask) | (value & mask)) & !mask) | (value & mask)) == ((old & !mask) | (value & mask))) by (bit_vector);
}

} // verus!
