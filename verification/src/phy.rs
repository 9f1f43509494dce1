//! Access to the PHY through the MAC's MDIO port (GMII address and data registers,
//! addressed by offset from the controller base): clause-22 register reads and writes,
//! and the YT8531C's extended registers behind the address register 0x1e and the data
//! register 0x1f.
use crate::dwc_const::{EQOS_MAC_MDIO_ADDRESS_GB, EQOS_MAC_MDIO_ADDRESS_GOC_READ, EQOS_MAC_MDIO_ADDRESS_GOC_WRITE, EQOS_MAC_MDIO_DATA_GD_MASK};
use crate::dwc_init::{
    lemma_mdio_command_fields, lemma_mdio_command_operation, mdio_command, mdio_command_word, mdio_keep_mask,
};
use crate::mmio::{upd, wait, wr, RegOp, RegRead};
use crate::regs::mac::{GMII_ADDRESS, GMII_DATA};
use vstd::prelude::*;

verus! {

/// The PHY's extended register address register.
pub const EXT_REG_ADDR: u32 = 0x1e;
/// The PHY's extended register data register.
pub const EXT_REG_DATA: u32 = 0x1f;
/// Basic mode control register and its software reset bit.
pub const BMCR: u32 = 0x00;
pub const BMCR_RESET: u32 = 0x8000;
/// PHY identifier registers.
pub const PHYID1: u32 = 0x02;
pub const PHYID2: u32 = 0x03;

/// The program of an MDIO read of register `reg` of PHY `phy`.
pub open spec fn phy_read_ops(phy: u32, reg: u32) -> Seq<RegOp> {
    seq![
        wait(GMII_ADDRESS, EQOS_MAC_MDIO_ADDRESS_GB, 0),
        upd(GMII_ADDRESS, !mdio_keep_mask(), mdio_command(phy, reg, EQOS_MAC_MDIO_ADDRESS_GOC_READ)),
        wait(GMII_ADDRESS, EQOS_MAC_MDIO_ADDRESS_GB, 0),
    ]
}

/// The program of an MDIO write of `val` to register `reg` of PHY `phy`.
pub open spec fn phy_write_ops(phy: u32, reg: u32, val: u32) -> Seq<RegOp> {
    seq![
        wait(GMII_ADDRESS, EQOS_MAC_MDIO_ADDRESS_GB, 0),
        wr(GMII_DATA, val & EQOS_MAC_MDIO_DATA_GD_MASK),
        upd(GMII_ADDRESS, !mdio_keep_mask(), mdio_command(phy, reg, EQOS_MAC_MDIO_ADDRESS_GOC_WRITE)),
        wait(GMII_ADDRESS, EQOS_MAC_MDIO_ADDRESS_GB, 0),
    ]
}

/// Reads register `reg` of PHY `phy`: the low 16 bits of the data register.
pub fn phy_read(phy: u32, reg: u32) -> (r: RegRead)
    ensures
        r.ops@ == phy_read_ops(phy, reg),
        r.reg == GMII_DATA,
        r.mask == EQOS_MAC_MDIO_DATA_GD_MASK,
{
    let cmd = mdio_command_word(phy, reg, EQOS_MAC_MDIO_ADDRESS_GOC_READ);
    RegRead {
        ops: vec![
            RegOp::WaitUntil { reg: GMII_ADDRESS, mask: EQOS_MAC_MDIO_ADDRESS_GB, expected: 0 },
            RegOp::Update { reg: GMII_ADDRESS, clear: !(0x10u32 | 0x2u32), set: cmd },
            RegOp::WaitUntil { reg: GMII_ADDRESS, mask: EQOS_MAC_MDIO_ADDRESS_GB, expected: 0 },
        ],
        reg: GMII_DATA,
        mask: EQOS_MAC_MDIO_DATA_GD_MASK,
    }
}

/// Writes the low 16 bits of `val` to register `reg` of PHY `phy`.
pub fn phy_write(phy: u32, reg: u32, val: u32) -> (ops: Vec<RegOp>)
    ensures
        ops@ == phy_write_ops(phy, reg, val),
{
    let cmd = mdio_command_word(phy, reg, EQOS_MAC_MDIO_ADDRESS_GOC_WRITE);
    vec![
        RegOp::WaitUntil { reg: GMII_ADDRESS, mask: EQOS_MAC_MDIO_ADDRESS_GB, expected: 0 },
        RegOp::Write { reg: GMII_DATA, value: val & EQOS_MAC_MDIO_DATA_GD_MASK },
        RegOp::Update { reg: GMII_ADDRESS, clear: !(0x10u32 | 0x2u32), set: cmd },
        RegOp::WaitUntil { reg: GMII_ADDRESS, mask: EQOS_MAC_MDIO_ADDRESS_GB, expected: 0 },
    ]
}

/// Reads extended register `reg` of PHY `phy`: selects it, then reads the data register.
pub fn phy_read_ext(phy: u32, reg: u32) -> (r: RegRead)
    ensures
        r.ops@ == phy_write_ops(phy, EXT_REG_ADDR, reg) + phy_read_ops(phy, EXT_REG_DATA),
        r.reg == GMII_DATA,
        r.mask == EQOS_MAC_MDIO_DATA_GD_MASK,
{
    let mut ops = phy_write(phy, EXT_REG_ADDR, reg);
    let mut read = phy_read(phy, EXT_REG_DATA);
    ops.append(&mut read.ops);
    RegRead { ops, reg: read.reg, mask: read.mask }
}

/// Writes `val` to extended register `reg` of PHY `phy`: selects it, then writes the data
/// register.
pub fn phy_write_ext(phy: u32, reg: u32, val: u32) -> (ops: Vec<RegOp>)
    ensures
        ops@ == phy_write_ops(phy, EXT_REG_ADDR, reg) + phy_write_ops(phy, EXT_REG_DATA, val),
{
    let mut ops = phy_write(phy, EXT_REG_ADDR, reg);
    let mut data = phy_write(phy, EXT_REG_DATA, val);
    ops.append(&mut data);
    ops
}

/// An MDIO write of `val` to register `reg` of PHY `phy` loads the GMII data register
/// (0x204) with the low 16 bits of `val`, then issues in the GMII address register
/// (0x200) a command with the write operation (GOC = 01) and the busy bit, keeping only
/// the SKAP and C45E bits of the register; an MDIO read issues a command with the read
/// operation (GOC = 11). For a PHY address and a register below 32 the command names
/// them.
pub proof fn lemma_mdio_commands(phy: u32, reg: u32, val: u32)
    ensures
        ({
            let ops = phy_write_ops(phy, reg, val);
            &&& ops.len() == 4
            &&& ops[1] == RegOp::Write { reg: 0x204, value: val & 0xffff }
            &&& ops[2] matches RegOp::Update { reg: a, clear: c, set: cmd } && a == 0x200 && c
                == !0x12u32 && (cmd >> 2u32) & 3 == 1 && cmd & 1 == 1 && (phy < 32 && reg < 32
                ==> (cmd >> 21u32) & 0x1f == phy && (cmd >> 16u32) & 0x1f == reg)
        }),
        ({
            let ops = phy_read_ops(phy, reg);
            &&& ops.len() == 3
            &&& ops[1] matches RegOp::Update { reg: a, clear: c, set: cmd } && a == 0x200 && c
                == !0x12u32 && (cmd >> 2u32) & 3 == 3 && cmd & 1 == 1 && (phy < 32 && reg < 32
                ==> (cmd >> 21u32) & 0x1f == phy && (cmd >> 16u32) & 0x1f == reg)
        }),
{
    lemma_mdio_command_operation(phy, reg, 1);
    lemma_mdio_command_operation(phy, reg, 3);
    if phy < 32 && reg < 32 {
        lemma_mdio_command_fields(phy, reg, 1);
        lemma_mdio_command_fields(phy, reg, 3);
    }
    assert(!(0x10u32 | 0x2u32) == !0x12u32) by (bit_vector);
}

/// A write of `val` to extended register `reg` of PHY `phy` (below 32) first writes `reg`
/// to the PHY's register 0x1e and then writes the low 16 bits of `val` to its register
/// 0x1f, both with write commands.
pub proof fn lemma_ext_reg_write(phy: u32, reg: u32, val: u32)
    requires
        phy < 32,
    ensures
        ({
            let ops = phy_write_ops(phy, EXT_REG_ADDR, reg) + phy_write_ops(phy, EXT_REG_DATA, val);
            &&& ops.len() == 8
            &&& ops[1] == RegOp::Write { reg: 0x204, value: reg & 0xffff }
            &&& ops[2] matches RegOp::Update { reg: a, set: cmd, .. } && a == 0x200 && (cmd >> 2u32) & 3
                == 1 && (cmd >> 16u32) & 0x1f == 0x1e && (cmd >> 21u32) & 0x1f == phy
            &&& ops[5] == RegOp::Write { reg: 0x204, value: val & 0xffff }
            &&& ops[6] matches RegOp::Update { reg: a, set: cmd, .. } && a == 0x200 && (cmd >> 2u32) & 3
                == 1 && (cmd >> 16u32) & 0x1f == 0x1f && (cmd >> 21u32) & 0x1f == phy
        }),
{
    lemma_mdio_commands(phy, EXT_REG_ADDR, reg);
    lemma_mdio_commands(phy, EXT_REG_DATA, val);
    let a = phy_write_ops(phy, EXT_REG_ADDR, reg);
    let d = phy_write_ops(phy, EXT_REG_DATA, val);
    assert((a + d)[5] == d[1]);
    assert((a + d)[6] == d[2]);
}

/// The value that replaces the bits of `mask` in `old` with those of `set`.
pub fn phy_setbits_value(old: u32, mask: u32, set: u32) -> (r: u32)
    ensures
        r == (old & !mask) | set,
{
    (old & !mask) | set
}

/// The 32-bit PHY identifier from the two identifier registers.
pub fn phy_id(id1: u32, id2: u32) -> (r: u32)
    requires
        id1 <= 0xffff,
        id2 <= 0xffff,
    ensures
        r == id1 * 0x10000 + id2,
{
    assert((id1 << 16u32) | id2 == id1 * 0x10000 + id2) by (bit_vector)
        requires
            id1 <= 0xffff,
            id2 <= 0xffff,
    ;
    (id1 << 16u32) | id2
}

} // verus!
