//! DMA bursts: several registers of a timer read or written upon one event.
//!
//! A burst may be used to create arbitrary waveforms by modifying the compare registers (base
//! addresses 13 to 16, for channels 1 to 4), or for implementing duty-cycle based digital
//! protocols.

use vstd::prelude::*;

use crate::mcu::{Family, Mcu};
use crate::registers::{Change, Field, Reg, RegState};
use crate::timer::Timer;

verus! {

/// The direction of a DMA transfer.
#[derive(Clone, Copy, Debug, PartialEq, Eq, Structural)]
pub enum Direction {
    /// From the peripheral into memory.
    ReadFromPeriph,
    /// From memory into the peripheral.
    ReadFromMem,
}

/// The size of one item of a DMA transfer.
#[derive(Clone, Copy, Debug, PartialEq, Eq, Structural)]
pub enum DataSize {
    S16,
    S32,
}

/// A transfer between a buffer and the DMAR register, as the DMA channel is to be configured
/// for it.
#[derive(Clone, Copy, Debug, PartialEq, Eq, Structural)]
pub struct Transfer {
    /// The number of items.
    pub num_data: u32,
    pub direction: Direction,
    /// The size of an item at the peripheral.
    pub periph_size: DataSize,
    /// The size of an item in memory.
    pub mem_size: DataSize,
}

pub open spec fn spec_has_dma_burst(mcu: Mcu) -> bool {
    mcu != Mcu::L552 && mcu.family() != Family::G0 && mcu.family() != Family::F4 && mcu.family()
        != Family::F3 && mcu.family() != Family::L4
}

/// Whether DMA bursts are supported on a microcontroller.
#[verifier::when_used_as_spec(spec_has_dma_burst)]
pub fn has_dma_burst(mcu: Mcu) -> (has: bool)
    ensures
        has == spec_has_dma_burst(mcu),
{
    match mcu.family() {
        Family::G0 | Family::F4 | Family::F3 | Family::L4 => false,
        _ => mcu != Mcu::L552,
    }
}

/// The number of items that is configured for a buffer of `len` items: the lowest 32 bits of
/// the length on the H7 family, the lowest 16 bits elsewhere.
pub open spec fn item_count(mcu: Mcu, len: usize) -> int {
    if mcu.family() == Family::H7 {
        len as int % 0x1_0000_0000
    } else {
        len as int % 0x1_0000
    }
}

/// The transfer of a burst.
pub open spec fn burst_transfer(
    mcu: Mcu,
    len: usize,
    direction: Direction,
    ds_32_bits: bool,
) -> Transfer {
    Transfer {
        num_data: item_count(mcu, len) as u32,
        direction,
        periph_size: if ds_32_bits {
            DataSize::S32
        } else {
            DataSize::S16
        },
        mem_size: DataSize::S16,
    }
}

/// The registers after a burst is set up: the lowest five bits of the base address and of the
/// length less one, and the timer enabled.
pub open spec fn burst_set(regs: RegState, base_address: u8, burst_len: u8) -> RegState {
    regs.modify(
        Reg::Dcr,
        Change::keep().with(Field::Dba, base_address as u32).with(
            Field::Dbl,
            (burst_len - 1) as u32,
        ),
    ).set(Field::Cen, 1)
}

fn count_items(mcu: Mcu, len: usize) -> (count: u32)
    ensures
        count == item_count(mcu, len),
{
    let modulus: u64 = if mcu.family() == Family::H7 {
        0x1_0000_0000
    } else {
        0x1_0000
    };
    (len as u64 % modulus) as u32
}

impl Timer {
    fn set_burst(&mut self, base_address: u8, burst_len: u8)
        requires
            burst_len >= 1,
        ensures
            final(self).regs@ == burst_set(old(self).regs@, base_address, burst_len),
            final(self).same_but_regs(old(self)),
    {
        self.regs.modify(
            Reg::Dcr,
            Change::keep().with(Field::Dba, base_address as u32).with(
                Field::Dbl,
                (burst_len - 1) as u32,
            ),
        );
        self.enable();
    }

    /// Sets up a burst that writes a buffer of `len` half-words to the timer's registers, and
    /// enables the timer. `base_address` is the first register, counted from CR1, and
    /// `burst_len` how many registers are written upon each event. Returns the transfer that
    /// the DMA channel is then to be configured for. The update DMA request is not enabled
    /// here.
    pub fn write_dma_burst(
        &mut self,
        len: usize,
        base_address: u8,
        burst_len: u8,
        ds_32_bits: bool,
    ) -> (transfer: Transfer)
        requires
            has_dma_burst(old(self).peripheral.mcu),
            burst_len >= 1,
        ensures
            transfer == burst_transfer(
                old(self).peripheral.mcu,
                len,
                Direction::ReadFromMem,
                ds_32_bits,
            ),
            len <= 65_535 ==> transfer.num_data == len,
            old(self).peripheral.mcu == Mcu::H7 && len <= u32::MAX ==> transfer.num_data == len,
            final(self).regs@ == burst_set(old(self).regs@, base_address, burst_len),
            final(self).same_but_regs(old(self)),
    {
        let num_data = count_items(self.peripheral.mcu, len);
        self.set_burst(base_address, burst_len);
        Transfer {
            num_data,
            direction: Direction::ReadFromMem,
            periph_size: if ds_32_bits {
                DataSize::S32
            } else {
                DataSize::S16
            },
            mem_size: DataSize::S16,
        }
    }

    /// Sets up a burst that reads the timer's registers into a buffer of `len` half-words, and
    /// enables the timer. The arguments and the result are those of `write_dma_burst`, in the
    /// other direction.
    pub fn read_dma_burst(
        &mut self,
        len: usize,
        base_address: u8,
        burst_len: u8,
        ds_32_bits: bool,
    ) -> (transfer: Transfer)
        requires
            has_dma_burst(old(self).peripheral.mcu),
            burst_len >= 1,
        ensures
            transfer == burst_transfer(
                old(self).peripheral.mcu,
                len,
                Direction::ReadFromPeriph,
                ds_32_bits,
            ),
            len <= 65_535 ==> transfer.num_data == len,
            old(self).peripheral.mcu == Mcu::H7 && len <= u32::MAX ==> transfer.num_data == len,
            final(self).regs@ == burst_set(old(self).regs@, base_address, burst_len),
            final(self).same_but_regs(old(self)),
    {
        let num_data = count_items(self.peripheral.mcu, len);
        self.set_burst(base_address, burst_len);
        Transfer {
            num_data,
            direction: Direction::ReadFromPeriph,
            periph_size: if ds_32_bits {
                DataSize::S32
            } else {
                DataSize::S16
            },
            mem_size: DataSize::S16,
        }
    }
}

} // verus!
