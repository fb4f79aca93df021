//! Where each field stands in the word that its register holds.
//!
//! Each law gives, for one register and all of its contents, what number a field reads as and
//! which bits of the word setting the field replaces by what.

use vstd::prelude::*;

use crate::bits;
use crate::registers::{Change, Field, Reg, RegState};

verus! {

/// The change that replaces the bits `mask` by `bits`.
pub open spec fn replacing(mask: u32, bits: int) -> Change {
    Change { mask, bits: bits as u32 }
}

/// The fields of control register 1.
pub proof fn law_fields_of_cr1(regs: RegState, value: u32)
    ensures
        Field::Cen.reg() == Reg::Cr1,
        regs.field(Field::Cen) == regs.get(Reg::Cr1) % 2,
        Field::Urs.reg() == Reg::Cr1,
        regs.field(Field::Urs) == regs.get(Reg::Cr1) / 0x4 % 2,
        Field::Opm.reg() == Reg::Cr1,
        regs.field(Field::Opm) == regs.get(Reg::Cr1) / 0x8 % 2,
        Field::Dir.reg() == Reg::Cr1,
        regs.field(Field::Dir) == regs.get(Reg::Cr1) / 0x10 % 2,
        Field::Cms.reg() == Reg::Cr1,
        regs.field(Field::Cms) == regs.get(Reg::Cr1) / 0x20 % 4,
        Field::Arpe.reg() == Reg::Cr1,
        regs.field(Field::Arpe) == regs.get(Reg::Cr1) / 0x80 % 2,
        value < 2 ==> Change::keep().with(Field::Cen, value) == replacing(0x1, value as int),
        value < 2 ==> Change::keep().with(Field::Urs, value) == replacing(0x4, 0x4 * value),
        value < 2 ==> Change::keep().with(Field::Opm, value) == replacing(0x8, 0x8 * value),
        value < 2 ==> Change::keep().with(Field::Dir, value) == replacing(0x10, 0x10 * value),
        value < 4 ==> Change::keep().with(Field::Cms, value) == replacing(0x60, 0x20 * value),
        value < 2 ==> Change::keep().with(Field::Arpe, value) == replacing(0x80, 0x80 * value),
{
    let word = regs.get(Reg::Cr1);
    assert({
        &&& bits::extract(word, 0, 1) == word % 2
        &&& 0u32 | bits::span_mask(0, 1) == 0x1
        &&& value < 2 ==> bits::insert(0, 0, 1, value) == value
        &&& bits::extract(word, 2, 1) == word / 0x4 % 2
        &&& 0u32 | bits::span_mask(2, 1) == 0x4
        &&& value < 2 ==> bits::insert(0, 2, 1, value) == 0x4 * value
        &&& bits::extract(word, 3, 1) == word / 0x8 % 2
        &&& 0u32 | bits::span_mask(3, 1) == 0x8
        &&& value < 2 ==> bits::insert(0, 3, 1, value) == 0x8 * value
        &&& bits::extract(word, 4, 1) == word / 0x10 % 2
        &&& 0u32 | bits::span_mask(4, 1) == 0x10
        &&& value < 2 ==> bits::insert(0, 4, 1, value) == 0x10 * value
        &&& bits::extract(word, 5, 2) == word / 0x20 % 4
        &&& 0u32 | bits::span_mask(5, 2) == 0x60
        &&& value < 4 ==> bits::insert(0, 5, 2, value) == 0x20 * value
        &&& bits::extract(word, 7, 1) == word / 0x80 % 2
        &&& 0u32 | bits::span_mask(7, 1) == 0x80
        &&& value < 2 ==> bits::insert(0, 7, 1, value) == 0x80 * value
    }) by (bit_vector);
}

/// The fields of control register 2.
pub proof fn law_fields_of_cr2(regs: RegState, value: u32)
    ensures
        Field::Ccds.reg() == Reg::Cr2,
        regs.field(Field::Ccds) == regs.get(Reg::Cr2) / 0x8 % 2,
        Field::Mms.reg() == Reg::Cr2,
        regs.field(Field::Mms) == regs.get(Reg::Cr2) / 0x10 % 8,
        value < 2 ==> Change::keep().with(Field::Ccds, value) == replacing(0x8, 0x8 * value),
        value < 8 ==> Change::keep().with(Field::Mms, value) == replacing(0x70, 0x10 * value),
{
    let word = regs.get(Reg::Cr2);
    assert({
        &&& bits::extract(word, 3, 1) == word / 0x8 % 2
        &&& 0u32 | bits::span_mask(3, 1) == 0x8
        &&& value < 2 ==> bits::insert(0, 3, 1, value) == 0x8 * value
        &&& bits::extract(word, 4, 3) == word / 0x10 % 8
        &&& 0u32 | bits::span_mask(4, 3) == 0x70
        &&& value < 8 ==> bits::insert(0, 4, 3, value) == 0x10 * value
    }) by (bit_vector);
}

/// The fields of the slave mode control register.
pub proof fn law_fields_of_smcr(regs: RegState, value: u32)
    ensures
        Field::Sms.reg() == Reg::Smcr,
        regs.field(Field::Sms) == regs.get(Reg::Smcr) % 8,
        Field::SmsHigh.reg() == Reg::Smcr,
        regs.field(Field::SmsHigh) == regs.get(Reg::Smcr) / 0x0001_0000 % 2,
        Field::Ts.reg() == Reg::Smcr,
        regs.field(Field::Ts) == regs.get(Reg::Smcr) / 0x10 % 8,
        Field::TsHigh.reg() == Reg::Smcr,
        regs.field(Field::TsHigh) == regs.get(Reg::Smcr) / 0x0010_0000 % 4,
        value < 8 ==> Change::keep().with(Field::Sms, value) == replacing(0x7, value as int),
        value < 2 ==> Change::keep().with(Field::SmsHigh, value) == replacing(0x0001_0000, 0x0001_0000 * value),
        value < 8 ==> Change::keep().with(Field::Ts, value) == replacing(0x70, 0x10 * value),
        value < 4 ==> Change::keep().with(Field::TsHigh, value) == replacing(0x0030_0000, 0x0010_0000 * value),
{
    let word = regs.get(Reg::Smcr);
    assert({
        &&& bits::extract(word, 0, 3) == word % 8
        &&& 0u32 | bits::span_mask(0, 3) == 0x7
        &&& value < 8 ==> bits::insert(0, 0, 3, value) == value
        &&& bits::extract(word, 16, 1) == word / 0x0001_0000 % 2
        &&& 0u32 | bits::span_mask(16, 1) == 0x0001_0000
        &&& value < 2 ==> bits::insert(0, 16, 1, value) == 0x0001_0000 * value
        &&& bits::extract(word, 4, 3) == word / 0x10 % 8
        &&& 0u32 | bits::span_mask(4, 3) == 0x70
        &&& value < 8 ==> bits::insert(0, 4, 3, value) == 0x10 * value
        &&& bits::extract(word, 20, 2) == word / 0x0010_0000 % 4
        &&& 0u32 | bits::span_mask(20, 2) == 0x0030_0000
        &&& value < 4 ==> bits::insert(0, 20, 2, value) == 0x0010_0000 * value
    }) by (bit_vector);
}

/// The fields of the DMA and interrupt enable register.
pub proof fn law_fields_of_dier(regs: RegState, value: u32)
    ensures
        Field::Uie.reg() == Reg::Dier,
        regs.field(Field::Uie) == regs.get(Reg::Dier) % 2,
        Field::Ude.reg() == Reg::Dier,
        regs.field(Field::Ude) == regs.get(Reg::Dier) / 0x100 % 2,
        value < 2 ==> Change::keep().with(Field::Uie, value) == replacing(0x1, value as int),
        value < 2 ==> Change::keep().with(Field::Ude, value) == replacing(0x100, 0x100 * value),
{
    let word = regs.get(Reg::Dier);
    assert({
        &&& bits::extract(word, 0, 1) == word % 2
        &&& 0u32 | bits::span_mask(0, 1) == 0x1
        &&& value < 2 ==> bits::insert(0, 0, 1, value) == value
        &&& bits::extract(word, 8, 1) == word / 0x100 % 2
        &&& 0u32 | bits::span_mask(8, 1) == 0x100
        &&& value < 2 ==> bits::insert(0, 8, 1, value) == 0x100 * value
    }) by (bit_vector);
}

/// The fields of the status register.
pub proof fn law_fields_of_sr(regs: RegState, value: u32)
    ensures
        Field::Uif.reg() == Reg::Sr,
        regs.field(Field::Uif) == regs.get(Reg::Sr) % 2,
        value < 2 ==> Change::keep().with(Field::Uif, value) == replacing(0x1, value as int),
{
    let word = regs.get(Reg::Sr);
    assert({
        &&& bits::extract(word, 0, 1) == word % 2
        &&& 0u32 | bits::span_mask(0, 1) == 0x1
        &&& value < 2 ==> bits::insert(0, 0, 1, value) == value
    }) by (bit_vector);
}

/// The fields of the event generation register.
pub proof fn law_fields_of_egr(regs: RegState, value: u32)
    ensures
        Field::Ug.reg() == Reg::Egr,
        regs.field(Field::Ug) == regs.get(Reg::Egr) % 2,
        value < 2 ==> Change::keep().with(Field::Ug, value) == replacing(0x1, value as int),
{
    let word = regs.get(Reg::Egr);
    assert({
        &&& bits::extract(word, 0, 1) == word % 2
        &&& 0u32 | bits::span_mask(0, 1) == 0x1
        &&& value < 2 ==> bits::insert(0, 0, 1, value) == value
    }) by (bit_vector);
}

/// The fields of capture/compare mode register 1.
pub proof fn law_fields_of_ccmr1(regs: RegState, value: u32)
    ensures
        Field::Cc1s.reg() == Reg::Ccmr1,
        regs.field(Field::Cc1s) == regs.get(Reg::Ccmr1) % 4,
        Field::Oc1pe.reg() == Reg::Ccmr1,
        regs.field(Field::Oc1pe) == regs.get(Reg::Ccmr1) / 0x8 % 2,
        Field::Oc1m.reg() == Reg::Ccmr1,
        regs.field(Field::Oc1m) == regs.get(Reg::Ccmr1) / 0x10 % 8,
        Field::Cc2s.reg() == Reg::Ccmr1,
        regs.field(Field::Cc2s) == regs.get(Reg::Ccmr1) / 0x100 % 4,
        Field::Oc2pe.reg() == Reg::Ccmr1,
        regs.field(Field::Oc2pe) == regs.get(Reg::Ccmr1) / 0x800 % 2,
        Field::Oc2m.reg() == Reg::Ccmr1,
        regs.field(Field::Oc2m) == regs.get(Reg::Ccmr1) / 0x1000 % 8,
        Field::Oc1mHigh.reg() == Reg::Ccmr1,
        regs.field(Field::Oc1mHigh) == regs.get(Reg::Ccmr1) / 0x0001_0000 % 2,
        Field::Oc2mHigh.reg() == Reg::Ccmr1,
        regs.field(Field::Oc2mHigh) == regs.get(Reg::Ccmr1) / 0x0100_0000 % 2,
        value < 4 ==> Change::keep().with(Field::Cc1s, value) == replacing(0x3, value as int),
        value < 2 ==> Change::keep().with(Field::Oc1pe, value) == replacing(0x8, 0x8 * value),
        value < 8 ==> Change::keep().with(Field::Oc1m, value) == replacing(0x70, 0x10 * value),
        value < 4 ==> Change::keep().with(Field::Cc2s, value) == replacing(0x300, 0x100 * value),
        value < 2 ==> Change::keep().with(Field::Oc2pe, value) == replacing(0x800, 0x800 * value),
        value < 8 ==> Change::keep().with(Field::Oc2m, value) == replacing(0x7000, 0x1000 * value),
        value < 2 ==> Change::keep().with(Field::Oc1mHigh, value) == replacing(0x0001_0000, 0x0001_0000 * value),
        value < 2 ==> Change::keep().with(Field::Oc2mHigh, value) == replacing(0x0100_0000, 0x0100_0000 * value),
{
    let word = regs.get(Reg::Ccmr1);
    assert({
        &&& bits::extract(word, 0, 2) == word % 4
        &&& 0u32 | bits::span_mask(0, 2) == 0x3
        &&& value < 4 ==> bits::insert(0, 0, 2, value) == value
        &&& bits::extract(word, 3, 1) == word / 0x8 % 2
        &&& 0u32 | bits::span_mask(3, 1) == 0x8
        &&& value < 2 ==> bits::insert(0, 3, 1, value) == 0x8 * value
        &&& bits::extract(word, 4, 3) == word / 0x10 % 8
        &&& 0u32 | bits::span_mask(4, 3) == 0x70
        &&& value < 8 ==> bits::insert(0, 4, 3, value) == 0x10 * value
        &&& bits::extract(word, 8, 2) == word / 0x100 % 4
        &&& 0u32 | bits::span_mask(8, 2) == 0x300
        &&& value < 4 ==> bits::insert(0, 8, 2, value) == 0x100 * value
        &&& bits::extract(word, 11, 1) == word / 0x800 % 2
        &&& 0u32 | bits::span_mask(11, 1) == 0x800
        &&& value < 2 ==> bits::insert(0, 11, 1, value) == 0x800 * value
        &&& bits::extract(word, 12, 3) == word / 0x1000 % 8
        &&& 0u32 | bits::span_mask(12, 3) == 0x7000
        &&& value < 8 ==> bits::insert(0, 12, 3, value) == 0x1000 * value
        &&& bits::extract(word, 16, 1) == word / 0x0001_0000 % 2
        &&& 0u32 | bits::span_mask(16, 1) == 0x0001_0000
        &&& value < 2 ==> bits::insert(0, 16, 1, value) == 0x0001_0000 * value
        &&& bits::extract(word, 24, 1) == word / 0x0100_0000 % 2
        &&& 0u32 | bits::span_mask(24, 1) == 0x0100_0000
        &&& value < 2 ==> bits::insert(0, 24, 1, value) == 0x0100_0000 * value
    }) by (bit_vector);
}

/// The fields of capture/compare mode register 2.
pub proof fn law_fields_of_ccmr2(regs: RegState, value: u32)
    ensures
        Field::Cc3s.reg() == Reg::Ccmr2,
        regs.field(Field::Cc3s) == regs.get(Reg::Ccmr2) % 4,
        Field::Oc3pe.reg() == Reg::Ccmr2,
        regs.field(Field::Oc3pe) == regs.get(Reg::Ccmr2) / 0x8 % 2,
        Field::Oc3m.reg() == Reg::Ccmr2,
        regs.field(Field::Oc3m) == regs.get(Reg::Ccmr2) / 0x10 % 8,
        Field::Cc4s.reg() == Reg::Ccmr2,
        regs.field(Field::Cc4s) == regs.get(Reg::Ccmr2) / 0x100 % 4,
        Field::Oc4pe.reg() == Reg::Ccmr2,
        regs.field(Field::Oc4pe) == regs.get(Reg::Ccmr2) / 0x800 % 2,
        Field::Oc4m.reg() == Reg::Ccmr2,
        regs.field(Field::Oc4m) == regs.get(Reg::Ccmr2) / 0x1000 % 8,
        Field::Oc3mHigh.reg() == Reg::Ccmr2,
        regs.field(Field::Oc3mHigh) == regs.get(Reg::Ccmr2) / 0x0001_0000 % 2,
        Field::Oc4mHigh.reg() == Reg::Ccmr2,
        regs.field(Field::Oc4mHigh) == regs.get(Reg::Ccmr2) / 0x0100_0000 % 2,
        value < 4 ==> Change::keep().with(Field::Cc3s, value) == replacing(0x3, value as int),
        value < 2 ==> Change::keep().with(Field::Oc3pe, value) == replacing(0x8, 0x8 * value),
        value < 8 ==> Change::keep().with(Field::Oc3m, value) == replacing(0x70, 0x10 * value),
        value < 4 ==> Change::keep().with(Field::Cc4s, value) == replacing(0x300, 0x100 * value),
        value < 2 ==> Change::keep().with(Field::Oc4pe, value) == replacing(0x800, 0x800 * value),
        value < 8 ==> Change::keep().with(Field::Oc4m, value) == replacing(0x7000, 0x1000 * value),
        value < 2 ==> Change::keep().with(Field::Oc3mHigh, value) == replacing(0x0001_0000, 0x0001_0000 * value),
        value < 2 ==> Change::keep().with(Field::Oc4mHigh, value) == replacing(0x0100_0000, 0x0100_0000 * value),
{
    let word = regs.get(Reg::Ccmr2);
    assert({
        &&& bits::extract(word, 0, 2) == word % 4
        &&& 0u32 | bits::span_mask(0, 2) == 0x3
        &&& value < 4 ==> bits::insert(0, 0, 2, value) == value
        &&& bits::extract(word, 3, 1) == word / 0x8 % 2
        &&& 0u32 | bits::span_mask(3, 1) == 0x8
        &&& value < 2 ==> bits::insert(0, 3, 1, value) == 0x8 * value
        &&& bits::extract(word, 4, 3) == word / 0x10 % 8
        &&& 0u32 | bits::span_mask(4, 3) == 0x70
        &&& value < 8 ==> bits::insert(0, 4, 3, value) == 0x10 * value
        &&& bits::extract(word, 8, 2) == word / 0x100 % 4
        &&& 0u32 | bits::span_mask(8, 2) == 0x300
        &&& value < 4 ==> bits::insert(0, 8, 2, value) == 0x100 * value
        &&& bits::extract(word, 11, 1) == word / 0x800 % 2
        &&& 0u32 | bits::span_mask(11, 1) == 0x800
        &&& value < 2 ==> bits::insert(0, 11, 1, value) == 0x800 * value
        &&& bits::extract(word, 12, 3) == word / 0x1000 % 8
        &&& 0u32 | bits::span_mask(12, 3) == 0x7000
        &&& value < 8 ==> bits::insert(0, 12, 3, value) == 0x1000 * value
        &&& bits::extract(word, 16, 1) == word / 0x0001_0000 % 2
        &&& 0u32 | bits::span_mask(16, 1) == 0x0001_0000
        &&& value < 2 ==> bits::insert(0, 16, 1, value) == 0x0001_0000 * value
        &&& bits::extract(word, 24, 1) == word / 0x0100_0000 % 2
        &&& 0u32 | bits::span_mask(24, 1) == 0x0100_0000
        &&& value < 2 ==> bits::insert(0, 24, 1, value) == 0x0100_0000 * value
    }) by (bit_vector);
}

/// The fields of the capture/compare enable register.
pub proof fn law_fields_of_ccer(regs: RegState, value: u32)
    ensures
        Field::Cc1e.reg() == Reg::Ccer,
        regs.field(Field::Cc1e) == regs.get(Reg::Ccer) % 2,
        Field::Cc1p.reg() == Reg::Ccer,
        regs.field(Field::Cc1p) == regs.get(Reg::Ccer) / 0x2 % 2,
        Field::Cc1np.reg() == Reg::Ccer,
        regs.field(Field::Cc1np) == regs.get(Reg::Ccer) / 0x8 % 2,
        Field::Cc2e.reg() == Reg::Ccer,
        regs.field(Field::Cc2e) == regs.get(Reg::Ccer) / 0x10 % 2,
        Field::Cc2p.reg() == Reg::Ccer,
        regs.field(Field::Cc2p) == regs.get(Reg::Ccer) / 0x20 % 2,
        Field::Cc2np.reg() == Reg::Ccer,
        regs.field(Field::Cc2np) == regs.get(Reg::Ccer) / 0x80 % 2,
        Field::Cc3e.reg() == Reg::Ccer,
        regs.field(Field::Cc3e) == regs.get(Reg::Ccer) / 0x100 % 2,
        Field::Cc3p.reg() == Reg::Ccer,
        regs.field(Field::Cc3p) == regs.get(Reg::Ccer) / 0x200 % 2,
        Field::Cc3np.reg() == Reg::Ccer,
        regs.field(Field::Cc3np) == regs.get(Reg::Ccer) / 0x800 % 2,
        Field::Cc4e.reg() == Reg::Ccer,
        regs.field(Field::Cc4e) == regs.get(Reg::Ccer) / 0x1000 % 2,
        Field::Cc4p.reg() == Reg::Ccer,
        regs.field(Field::Cc4p) == regs.get(Reg::Ccer) / 0x2000 % 2,
        Field::Cc4np.reg() == Reg::Ccer,
        regs.field(Field::Cc4np) == regs.get(Reg::Ccer) / 0x8000 % 2,
        value < 2 ==> Change::keep().with(Field::Cc1e, value) == replacing(0x1, value as int),
        value < 2 ==> Change::keep().with(Field::Cc1p, value) == replacing(0x2, 0x2 * value),
        value < 2 ==> Change::keep().with(Field::Cc1np, value) == replacing(0x8, 0x8 * value),
        value < 2 ==> Change::keep().with(Field::Cc2e, value) == replacing(0x10, 0x10 * value),
        value < 2 ==> Change::keep().with(Field::Cc2p, value) == replacing(0x20, 0x20 * value),
        value < 2 ==> Change::keep().with(Field::Cc2np, value) == replacing(0x80, 0x80 * value),
        value < 2 ==> Change::keep().with(Field::Cc3e, value) == replacing(0x100, 0x100 * value),
        value < 2 ==> Change::keep().with(Field::Cc3p, value) == replacing(0x200, 0x200 * value),
        value < 2 ==> Change::keep().with(Field::Cc3np, value) == replacing(0x800, 0x800 * value),
        value < 2 ==> Change::keep().with(Field::Cc4e, value) == replacing(0x1000, 0x1000 * value),
        value < 2 ==> Change::keep().with(Field::Cc4p, value) == replacing(0x2000, 0x2000 * value),
        value < 2 ==> Change::keep().with(Field::Cc4np, value) == replacing(0x8000, 0x8000 * value),
{
    let word = regs.get(Reg::Ccer);
    assert({
        &&& bits::extract(word, 0, 1) == word % 2
        &&& 0u32 | bits::span_mask(0, 1) == 0x1
        &&& value < 2 ==> bits::insert(0, 0, 1, value) == value
        &&& bits::extract(word, 1, 1) == word / 0x2 % 2
        &&& 0u32 | bits::span_mask(1, 1) == 0x2
        &&& value < 2 ==> bits::insert(0, 1, 1, value) == 0x2 * value
        &&& bits::extract(word, 3, 1) == word / 0x8 % 2
        &&& 0u32 | bits::span_mask(3, 1) == 0x8
        &&& value < 2 ==> bits::insert(0, 3, 1, value) == 0x8 * value
        &&& bits::extract(word, 4, 1) == word / 0x10 % 2
        &&& 0u32 | bits::span_mask(4, 1) == 0x10
        &&& value < 2 ==> bits::insert(0, 4, 1, value) == 0x10 * value
        &&& bits::extract(word, 5, 1) == word / 0x20 % 2
        &&& 0u32 | bits::span_mask(5, 1) == 0x20
        &&& value < 2 ==> bits::insert(0, 5, 1, value) == 0x20 * value
        &&& bits::extract(word, 7, 1) == word / 0x80 % 2
        &&& 0u32 | bits::span_mask(7, 1) == 0x80
        &&& value < 2 ==> bits::insert(0, 7, 1, value) == 0x80 * value
        &&& bits::extract(word, 8, 1) == word / 0x100 % 2
        &&& 0u32 | bits::span_mask(8, 1) == 0x100
        &&& value < 2 ==> bits::insert(0, 8, 1, value) == 0x100 * value
        &&& bits::extract(word, 9, 1) == word / 0x200 % 2
        &&& 0u32 | bits::span_mask(9, 1) == 0x200
        &&& value < 2 ==> bits::insert(0, 9, 1, value) == 0x200 * value
        &&& bits::extract(word, 11, 1) == word / 0x800 % 2
        &&& 0u32 | bits::span_mask(11, 1) == 0x800
        &&& value < 2 ==> bits::insert(0, 11, 1, value) == 0x800 * value
        &&& bits::extract(word, 12, 1) == word / 0x1000 % 2
        &&& 0u32 | bits::span_mask(12, 1) == 0x1000
        &&& value < 2 ==> bits::insert(0, 12, 1, value) == 0x1000 * value
        &&& bits::extract(word, 13, 1) == word / 0x2000 % 2
        &&& 0u32 | bits::span_mask(13, 1) == 0x2000
        &&& value < 2 ==> bits::insert(0, 13, 1, value) == 0x2000 * value
        &&& bits::extract(word, 15, 1) == word / 0x8000 % 2
        &&& 0u32 | bits::span_mask(15, 1) == 0x8000
        &&& value < 2 ==> bits::insert(0, 15, 1, value) == 0x8000 * value
    }) by (bit_vector);
}

/// The fields of the DMA control register.
pub proof fn law_fields_of_dcr(regs: RegState, value: u32)
    ensures
        Field::Dba.reg() == Reg::Dcr,
        regs.field(Field::Dba) == regs.get(Reg::Dcr) % 32,
        Field::Dbl.reg() == Reg::Dcr,
        regs.field(Field::Dbl) == regs.get(Reg::Dcr) / 0x100 % 32,
        value < 32 ==> Change::keep().with(Field::Dba, value) == replacing(0x1f, value as int),
        value < 32 ==> Change::keep().with(Field::Dbl, value) == replacing(0x1f00, 0x100 * value),
{
    let word = regs.get(Reg::Dcr);
    assert({
        &&& bits::extract(word, 0, 5) == word % 32
        &&& 0u32 | bits::span_mask(0, 5) == 0x1f
        &&& value < 32 ==> bits::insert(0, 0, 5, value) == value
        &&& bits::extract(word, 8, 5) == word / 0x100 % 32
        &&& 0u32 | bits::span_mask(8, 5) == 0x1f00
        &&& value < 32 ==> bits::insert(0, 8, 5, value) == 0x100 * value
    }) by (bit_vector);
}

} // verus!
