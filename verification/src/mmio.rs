//! The register file: one byte of storage for each hardware register, read
//! and written by the register's identity.

use vstd::prelude::*;
use crate::reg::HwReg;
use crate::reg::InputSource;
use crate::reg::input_source_of;
use crate::reg::REGISTER_COUNT;
use crate::reg::ordinal_of;
use crate::reg::ordinal_is_injective;

verus! {

/// The register file. It keeps exactly one byte for every [`HwReg`], each in
/// a cell of its own: the cell of a register is the one at its ordinal.
///
/// Its view is the total map from registers to the bytes they hold.
pub struct Mmio {
    cells: [u8; REGISTER_COUNT],
}

impl View for Mmio {
    type V = Map<HwReg, u8>;

    open spec fn view(&self) -> Map<HwReg, u8> {
        Map::total(|register: HwReg| self.stored(register))
    }
}

/// The contents of a register file in which every register holds zero.
pub open spec fn all_zero() -> Map<HwReg, u8> {
    Map::total(|register: HwReg| 0u8)
}

impl Mmio {
    /// The byte that `register` holds.
    pub closed spec fn stored(&self, register: HwReg) -> u8 {
        self.cells@[register.ordinal() as int]
    }

    /// A register file in which every register holds zero.
    pub fn new() -> (mmio: Mmio)
        ensures
            mmio@ == all_zero(),
    {
        let mmio = Mmio { cells: [0u8; REGISTER_COUNT] };
        assert(mmio@ =~= all_zero()) by {
            assert forall|register: HwReg| mmio.stored(register) == 0u8 by {
                ordinal_is_injective(register, register);
            }
        }
        mmio
    }

    /// The byte that `register` holds. Nothing is changed by looking.
    ///
    /// A register with an [`input_source`](HwReg::input_source) is read like
    /// any other; that its input is missing is for the caller to report.
    pub fn read(&self, register: HwReg) -> (value: u8)
        ensures
            value == self@[register],
    {
        self.cells[ordinal_of(register)]
    }

    /// What a read of `register` amounts to: the byte that it holds, and the
    /// outside input that the register stands for, if any. Nothing feeds such
    /// an input here, so the byte is the stored one all the same, and the
    /// caller owes its user the [`notice`](InputSource::notice) that the
    /// input is missing. That is a report, not a failure.
    pub fn read_with_notice(&self, register: HwReg) -> (reading: (u8, Option<InputSource>))
        ensures
            reading.0 == self@[register],
            reading.1 == register.input_source(),
    {
        (self.read(register), input_source_of(register))
    }

    /// Stores `value` in `register`, whatever it held, and leaves every other
    /// register as it was. The byte is taken as it is: none of its bits is
    /// masked, and no register reacts to it.
    pub fn write(&mut self, register: HwReg, value: u8)
        ensures
            final(self)@ == old(self)@.insert(register, value),
    {
        self.cells[ordinal_of(register)] = value;
        assert(self@ =~= old(self)@.insert(register, value)) by {
            assert forall|other: HwReg| other != register implies self.stored(other)
                == old(self).stored(other) by {
                ordinal_is_injective(other, register);
            }
        }
    }
}

impl Default for Mmio {
    fn default() -> (mmio: Mmio)
        ensures
            mmio@ == all_zero(),
    {
        Mmio::new()
    }
}

/// In a new register file every register reads as zero.
pub proof fn new_reads_zero(mmio: Mmio, register: HwReg)
    requires
        mmio@ == all_zero(),
    ensures
        mmio@[register] == 0,
{
}

/// A register reads back the byte that was last written to it. This holds of
/// the registers that stand for an outside input as of all others.
pub proof fn read_after_write(before: Mmio, after: Mmio, register: HwReg, value: u8)
    requires
        after@ == before@.insert(register, value),
    ensures
        after@[register] == value,
{
}

/// A write to one register changes what no other register reads as.
pub proof fn write_keeps_others(
    before: Mmio,
    after: Mmio,
    register: HwReg,
    value: u8,
    other: HwReg,
)
    requires
        after@ == before@.insert(register, value),
        other != register,
    ensures
        after@[other] == before@[other],
{
}

/// A register file holds a byte for every register, whatever was done to it.
pub proof fn every_register_stored(mmio: Mmio, register: HwReg)
    ensures
        mmio@.dom().contains(register),
{
}

} // verus!
