//! The registers of a timer, their fields, and the image that the library works on.

use vstd::prelude::*;

use crate::bits;

verus! {

/// How many registers an image holds.
pub const REG_COUNT: usize = 17;

/// A register of a timer.
#[derive(Clone, Copy, Debug, PartialEq, Eq, Structural)]
pub enum Reg {
    /// Control register 1.
    Cr1,
    /// Control register 2.
    Cr2,
    /// Slave mode control register.
    Smcr,
    /// DMA and interrupt enable register.
    Dier,
    /// Status register. A flag is cleared by writing 0 to it; writing 1 leaves it alone.
    Sr,
    /// Event generation register.
    Egr,
    /// Capture/compare mode register 1: channels 1 and 2.
    Ccmr1,
    /// Capture/compare mode register 2: channels 3 and 4.
    Ccmr2,
    /// Capture/compare enable register.
    Ccer,
    /// Counter.
    Cnt,
    /// Prescaler.
    Psc,
    /// Auto-reload register.
    Arr,
    /// Capture/compare register 1.
    Ccr1,
    /// Capture/compare register 2.
    Ccr2,
    /// Capture/compare register 3.
    Ccr3,
    /// Capture/compare register 4.
    Ccr4,
    /// DMA control register.
    Dcr,
}

impl Reg {
    /// The place of the register in an image.
    pub open spec fn slot(self) -> nat {
        match self {
            Reg::Cr1 => 0,
            Reg::Cr2 => 1,
            Reg::Smcr => 2,
            Reg::Dier => 3,
            Reg::Sr => 4,
            Reg::Egr => 5,
            Reg::Ccmr1 => 6,
            Reg::Ccmr2 => 7,
            Reg::Ccer => 8,
            Reg::Cnt => 9,
            Reg::Psc => 10,
            Reg::Arr => 11,
            Reg::Ccr1 => 12,
            Reg::Ccr2 => 13,
            Reg::Ccr3 => 14,
            Reg::Ccr4 => 15,
            Reg::Dcr => 16,
        }
    }

    fn index(self) -> (index: usize)
        ensures
            index == self.slot(),
            index < REG_COUNT,
    {
        match self {
            Reg::Cr1 => 0,
            Reg::Cr2 => 1,
            Reg::Smcr => 2,
            Reg::Dier => 3,
            Reg::Sr => 4,
            Reg::Egr => 5,
            Reg::Ccmr1 => 6,
            Reg::Ccmr2 => 7,
            Reg::Ccer => 8,
            Reg::Cnt => 9,
            Reg::Psc => 10,
            Reg::Arr => 11,
            Reg::Ccr1 => 12,
            Reg::Ccr2 => 13,
            Reg::Ccr3 => 14,
            Reg::Ccr4 => 15,
            Reg::Dcr => 16,
        }
    }
}

/// A field of a register. A selection whose bits do not lie together in the register is two
/// fields: the low bits under the plain name, the high bits under the name with `High`.
#[derive(Clone, Copy, Debug, PartialEq, Eq, Structural)]
pub enum Field {
    /// CR1: counter enable.
    Cen,
    /// CR1: update request source.
    Urs,
    /// CR1: one-pulse mode.
    Opm,
    /// CR1: count direction.
    Dir,
    /// CR1: center-aligned mode selection.
    Cms,
    /// CR1: auto-reload preload enable.
    Arpe,
    /// CR2: capture/compare DMA selection.
    Ccds,
    /// CR2: master mode selection.
    Mms,
    /// SMCR: slave mode selection, bits 2:0.
    Sms,
    /// SMCR: slave mode selection, bit 3.
    SmsHigh,
    /// SMCR: trigger selection, bits 2:0.
    Ts,
    /// SMCR: trigger selection, bits 4:3.
    TsHigh,
    /// DIER: update interrupt enable.
    Uie,
    /// DIER: update DMA request enable.
    Ude,
    /// SR: update interrupt flag.
    Uif,
    /// EGR: update generation.
    Ug,
    /// CCMR1: selection of channel 1.
    Cc1s,
    /// CCMR1: preload enable of channel 1.
    Oc1pe,
    /// CCMR1: output compare mode of channel 1, bits 2:0.
    Oc1m,
    /// CCMR1: output compare mode of channel 1, bit 3.
    Oc1mHigh,
    /// CCMR1: selection of channel 2.
    Cc2s,
    /// CCMR1: preload enable of channel 2.
    Oc2pe,
    /// CCMR1: output compare mode of channel 2, bits 2:0.
    Oc2m,
    /// CCMR1: output compare mode of channel 2, bit 3.
    Oc2mHigh,
    /// CCMR2: selection of channel 3.
    Cc3s,
    /// CCMR2: preload enable of channel 3.
    Oc3pe,
    /// CCMR2: output compare mode of channel 3, bits 2:0.
    Oc3m,
    /// CCMR2: output compare mode of channel 3, bit 3.
    Oc3mHigh,
    /// CCMR2: selection of channel 4.
    Cc4s,
    /// CCMR2: preload enable of channel 4.
    Oc4pe,
    /// CCMR2: output compare mode of channel 4, bits 2:0.
    Oc4m,
    /// CCMR2: output compare mode of channel 4, bit 3.
    Oc4mHigh,
    /// CCER: channel 1 enable.
    Cc1e,
    /// CCER: channel 1 polarity.
    Cc1p,
    /// CCER: channel 1 complementary polarity.
    Cc1np,
    /// CCER: channel 2 enable.
    Cc2e,
    /// CCER: channel 2 polarity.
    Cc2p,
    /// CCER: channel 2 complementary polarity.
    Cc2np,
    /// CCER: channel 3 enable.
    Cc3e,
    /// CCER: channel 3 polarity.
    Cc3p,
    /// CCER: channel 3 complementary polarity.
    Cc3np,
    /// CCER: channel 4 enable.
    Cc4e,
    /// CCER: channel 4 polarity.
    Cc4p,
    /// CCER: channel 4 complementary polarity.
    Cc4np,
    /// DCR: DMA base address.
    Dba,
    /// DCR: DMA burst length.
    Dbl,
}

impl Field {
    pub open spec fn spec_reg(self) -> Reg {
        match self {
            Field::Cen | Field::Urs | Field::Opm | Field::Dir | Field::Cms | Field::Arpe =>
                Reg::Cr1,
            Field::Ccds | Field::Mms => Reg::Cr2,
            Field::Sms | Field::SmsHigh | Field::Ts | Field::TsHigh => Reg::Smcr,
            Field::Uie | Field::Ude => Reg::Dier,
            Field::Uif => Reg::Sr,
            Field::Ug => Reg::Egr,
            Field::Cc1s | Field::Oc1pe | Field::Oc1m | Field::Oc1mHigh => Reg::Ccmr1,
            Field::Cc2s | Field::Oc2pe | Field::Oc2m | Field::Oc2mHigh => Reg::Ccmr1,
            Field::Cc3s | Field::Oc3pe | Field::Oc3m | Field::Oc3mHigh => Reg::Ccmr2,
            Field::Cc4s | Field::Oc4pe | Field::Oc4m | Field::Oc4mHigh => Reg::Ccmr2,
            Field::Cc1e | Field::Cc1p | Field::Cc1np => Reg::Ccer,
            Field::Cc2e | Field::Cc2p | Field::Cc2np => Reg::Ccer,
            Field::Cc3e | Field::Cc3p | Field::Cc3np => Reg::Ccer,
            Field::Cc4e | Field::Cc4p | Field::Cc4np => Reg::Ccer,
            Field::Dba | Field::Dbl => Reg::Dcr,
        }
    }

    /// The register that holds the field.
    #[verifier::when_used_as_spec(spec_reg)]
    pub fn reg(self) -> (reg: Reg)
        ensures
            reg == self.spec_reg(),
    {
        match self {
            Field::Cen | Field::Urs | Field::Opm | Field::Dir | Field::Cms | Field::Arpe =>
                Reg::Cr1,
            Field::Ccds | Field::Mms => Reg::Cr2,
            Field::Sms | Field::SmsHigh | Field::Ts | Field::TsHigh => Reg::Smcr,
            Field::Uie | Field::Ude => Reg::Dier,
            Field::Uif => Reg::Sr,
            Field::Ug => Reg::Egr,
            Field::Cc1s | Field::Oc1pe | Field::Oc1m | Field::Oc1mHigh => Reg::Ccmr1,
            Field::Cc2s | Field::Oc2pe | Field::Oc2m | Field::Oc2mHigh => Reg::Ccmr1,
            Field::Cc3s | Field::Oc3pe | Field::Oc3m | Field::Oc3mHigh => Reg::Ccmr2,
            Field::Cc4s | Field::Oc4pe | Field::Oc4m | Field::Oc4mHigh => Reg::Ccmr2,
            Field::Cc1e | Field::Cc1p | Field::Cc1np => Reg::Ccer,
            Field::Cc2e | Field::Cc2p | Field::Cc2np => Reg::Ccer,
            Field::Cc3e | Field::Cc3p | Field::Cc3np => Reg::Ccer,
            Field::Cc4e | Field::Cc4p | Field::Cc4np => Reg::Ccer,
            Field::Dba | Field::Dbl => Reg::Dcr,
        }
    }

    /// The field's lowest bit and its width, in bits.
    pub open spec fn span(self) -> (u32, u32) {
        match self {
            Field::Cen => (0, 1),
            Field::Urs => (2, 1),
            Field::Opm => (3, 1),
            Field::Dir => (4, 1),
            Field::Cms => (5, 2),
            Field::Arpe => (7, 1),
            Field::Ccds => (3, 1),
            Field::Mms => (4, 3),
            Field::Sms => (0, 3),
            Field::SmsHigh => (16, 1),
            Field::Ts => (4, 3),
            Field::TsHigh => (20, 2),
            Field::Uie => (0, 1),
            Field::Ude => (8, 1),
            Field::Uif => (0, 1),
            Field::Ug => (0, 1),
            Field::Cc1s | Field::Cc3s => (0, 2),
            Field::Oc1pe | Field::Oc3pe => (3, 1),
            Field::Oc1m | Field::Oc3m => (4, 3),
            Field::Oc1mHigh | Field::Oc3mHigh => (16, 1),
            Field::Cc2s | Field::Cc4s => (8, 2),
            Field::Oc2pe | Field::Oc4pe => (11, 1),
            Field::Oc2m | Field::Oc4m => (12, 3),
            Field::Oc2mHigh | Field::Oc4mHigh => (24, 1),
            Field::Cc1e => (0, 1),
            Field::Cc1p => (1, 1),
            Field::Cc1np => (3, 1),
            Field::Cc2e => (4, 1),
            Field::Cc2p => (5, 1),
            Field::Cc2np => (7, 1),
            Field::Cc3e => (8, 1),
            Field::Cc3p => (9, 1),
            Field::Cc3np => (11, 1),
            Field::Cc4e => (12, 1),
            Field::Cc4p => (13, 1),
            Field::Cc4np => (15, 1),
            Field::Dba => (0, 5),
            Field::Dbl => (8, 5),
        }
    }

    /// The bits of the field in its register.
    pub open spec fn mask(self) -> u32 {
        bits::span_mask(self.span().0, self.span().1)
    }

    /// The value of the field in `word`.
    pub open spec fn of(self, word: u32) -> u32 {
        bits::extract(word, self.span().0, self.span().1)
    }

    /// `word` with the field set to the lowest bits of `value`.
    pub open spec fn put(self, word: u32, value: u32) -> u32 {
        bits::insert(word, self.span().0, self.span().1, value)
    }

    fn place(self) -> (place: (u32, u32))
        ensures
            place == self.span(),
            bits::valid_span(place.0, place.1),
    {
        match self {
            Field::Cen => (0, 1),
            Field::Urs => (2, 1),
            Field::Opm => (3, 1),
            Field::Dir => (4, 1),
            Field::Cms => (5, 2),
            Field::Arpe => (7, 1),
            Field::Ccds => (3, 1),
            Field::Mms => (4, 3),
            Field::Sms => (0, 3),
            Field::SmsHigh => (16, 1),
            Field::Ts => (4, 3),
            Field::TsHigh => (20, 2),
            Field::Uie => (0, 1),
            Field::Ude => (8, 1),
            Field::Uif => (0, 1),
            Field::Ug => (0, 1),
            Field::Cc1s | Field::Cc3s => (0, 2),
            Field::Oc1pe | Field::Oc3pe => (3, 1),
            Field::Oc1m | Field::Oc3m => (4, 3),
            Field::Oc1mHigh | Field::Oc3mHigh => (16, 1),
            Field::Cc2s | Field::Cc4s => (8, 2),
            Field::Oc2pe | Field::Oc4pe => (11, 1),
            Field::Oc2m | Field::Oc4m => (12, 3),
            Field::Oc2mHigh | Field::Oc4mHigh => (24, 1),
            Field::Cc1e => (0, 1),
            Field::Cc1p => (1, 1),
            Field::Cc1np => (3, 1),
            Field::Cc2e => (4, 1),
            Field::Cc2p => (5, 1),
            Field::Cc2np => (7, 1),
            Field::Cc3e => (8, 1),
            Field::Cc3p => (9, 1),
            Field::Cc3np => (11, 1),
            Field::Cc4e => (12, 1),
            Field::Cc4p => (13, 1),
            Field::Cc4np => (15, 1),
            Field::Dba => (0, 5),
            Field::Dbl => (8, 5),
        }
    }

    /// Reads the field out of a register's content.
    pub fn read(self, word: u32) -> (value: u32)
        ensures
            value == self.of(word),
    {
        let (offset, width) = self.place();
        assert(1u32 << width >= 1u32) by (bit_vector)
            requires
                width < 32,
        ;
        (word >> offset) & ((1u32 << width) - 1)
    }
}

/// Every field lies inside its register.
pub proof fn lemma_field_valid(field: Field)
    ensures
        bits::valid_span(field.span().0, field.span().1),
{
}

/// No two fields of one register share a bit.
pub proof fn lemma_fields_disjoint(f: Field, g: Field)
    requires
        f != g,
        f.reg() == g.reg(),
    ensures
        bits::disjoint_spans(f.span().0, f.span().1, g.span().0, g.span().1),
{
}

/// A field that was put reads back, and no other field of the register has changed.
pub proof fn lemma_put(field: Field, word: u32, value: u32)
    ensures
        value < 1u32 << field.span().1 ==> field.of(field.put(word, value)) == value,
        forall|other: Field|
            other != field && other.reg() == field.reg() ==> #[trigger] other.of(
                field.put(word, value),
            ) == other.of(word),
{
    lemma_field_valid(field);
    bits::lemma_extract_insert(word, field.span().0, field.span().1, value);
    assert forall|other: Field|
        other != field && other.reg() == field.reg() implies #[trigger] other.of(
        field.put(word, value),
    ) == other.of(word) by {
        lemma_field_valid(other);
        lemma_fields_disjoint(field, other);
        bits::lemma_extract_insert_other(
            word,
            field.span().0,
            field.span().1,
            value,
            other.span().0,
            other.span().1,
        );
    }
}

/// New contents for some bits of a register.
#[derive(Clone, Copy, Debug, PartialEq, Eq, Structural)]
pub struct Change {
    /// The bits that are replaced.
    pub mask: u32,
    /// What they are replaced by; no bit outside `mask` is set.
    pub bits: u32,
}

impl Change {
    /// No bit is set outside the mask.
    pub open spec fn wf(self) -> bool {
        self.bits & !self.mask == 0
    }

    pub open spec fn spec_keep() -> Change {
        Change { mask: 0, bits: 0 }
    }

    pub open spec fn spec_with(self, field: Field, value: u32) -> Change {
        Change { mask: self.mask | field.mask(), bits: field.put(self.bits, value) }
    }

    pub open spec fn spec_outcome(self, word: u32) -> u32 {
        (word & !self.mask) | self.bits
    }

    /// The change that replaces nothing.
    #[verifier::when_used_as_spec(spec_keep)]
    pub fn keep() -> (change: Change)
        ensures
            change == Change::spec_keep(),
            change.wf(),
    {
        assert(0u32 & !0u32 == 0u32) by (bit_vector);
        Change { mask: 0, bits: 0 }
    }

    /// This change, with `field` set to the lowest bits of `value` on top of it.
    #[verifier::when_used_as_spec(spec_with)]
    pub fn with(self, field: Field, value: u32) -> (change: Change)
        ensures
            change == self.spec_with(field, value),
            self.wf() ==> change.wf(),
    {
        let (offset, width) = field.place();
        let mask = bits::make_mask(offset, width);
        proof {
            if self.wf() {
                lemma_with(self, field, value, 0);
            }
        }
        Change {
            mask: self.mask | mask,
            bits: (self.bits & !mask) | ((value << offset) & mask),
        }
    }

    /// What a register that held `word` holds after the change.
    #[verifier::when_used_as_spec(spec_outcome)]
    pub fn outcome(self, word: u32) -> (result: u32)
        ensures
            result == self.spec_outcome(word),
    {
        (word & !self.mask) | self.bits
    }
}

/// Adding a field to a change puts that field on top of the change's outcome.
pub proof fn lemma_with(change: Change, field: Field, value: u32, word: u32)
    requires
        change.wf(),
    ensures
        change.with(field, value).wf(),
        change.with(field, value).outcome(word) == field.put(change.outcome(word), value),
{
    let mask = change.mask;
    let bits = change.bits;
    let offset = field.span().0;
    let fmask = field.mask();
    assert({
        let out = (bits & !fmask) | ((value << offset) & fmask);
        &&& out & !(mask | fmask) == 0
        &&& (word & !(mask | fmask)) | out == (((word & !mask) | bits) & !fmask) | ((value
            << offset) & fmask)
    }) by (bit_vector)
        requires
            bits & !mask == 0,
    ;
}

/// The empty change is well formed and leaves every word as it is.
pub proof fn lemma_keep(word: u32)
    ensures
        Change::keep().wf(),
        Change::keep().outcome(word) == word,
{
    assert(0u32 & !0u32 == 0u32) by (bit_vector);
    assert((word & !0u32) | 0u32 == word) by (bit_vector);
}

/// One access to a register of the peripheral.
#[derive(Clone, Copy, Debug, PartialEq, Eq, Structural)]
pub enum Access {
    /// Write `value`, whatever the register holds.
    Write { reg: Reg, value: u32 },
    /// Read the register, replace some of its bits, and write the result back.
    Modify { reg: Reg, change: Change },
}

impl Access {
    /// The register that is accessed.
    pub open spec fn target(self) -> Reg {
        match self {
            Access::Write { reg, .. } => reg,
            Access::Modify { reg, .. } => reg,
        }
    }

    pub open spec fn spec_outcome(self, word: u32) -> u32 {
        match self {
            Access::Write { value, .. } => value,
            Access::Modify { change, .. } => change.outcome(word),
        }
    }

    /// The word that is written to a register that holds `word`.
    #[verifier::when_used_as_spec(spec_outcome)]
    pub fn outcome(self, word: u32) -> (result: u32)
        ensures
            result == self.spec_outcome(word),
    {
        match self {
            Access::Write { value, .. } => value,
            Access::Modify { change, .. } => change.outcome(word),
        }
    }
}

/// What an image stands for: the content of each register, and the accesses that are still
/// to be carried out, oldest first.
#[verifier::ext_equal]
pub struct RegState {
    pub values: spec_fn(Reg) -> u32,
    pub log: Seq<Access>,
}

impl RegState {
    /// The content of a register.
    pub open spec fn get(self, reg: Reg) -> u32 {
        (self.values)(reg)
    }

    /// The value of a field.
    pub open spec fn field(self, field: Field) -> u32 {
        field.of(self.get(field.reg()))
    }

    /// The contents of the registers, where register `target` holds `value`.
    pub open spec fn with_value(self, target: Reg, value: u32) -> spec_fn(Reg) -> u32 {
        |reg: Reg|
            if reg == target {
                value
            } else {
                self.get(reg)
            }
    }

    /// The state after one access.
    pub open spec fn perform(self, access: Access) -> RegState {
        RegState {
            values: self.with_value(
                access.target(),
                access.outcome(self.get(access.target())),
            ),
            log: self.log.push(access),
        }
    }

    /// The state after writing a register.
    pub open spec fn write(self, reg: Reg, value: u32) -> RegState {
        self.perform(Access::Write { reg, value })
    }

    /// The state after replacing bits of a register.
    pub open spec fn modify(self, reg: Reg, change: Change) -> RegState {
        self.perform(Access::Modify { reg, change })
    }

    /// The state after setting one field.
    pub open spec fn set(self, field: Field, value: u32) -> RegState {
        self.modify(field.reg(), Change::keep().with(field, value))
    }
}

/// An image of a timer's registers, with a log of the accesses made to it.
///
/// The image behaves as memory does. Where the peripheral does not, because it counts,
/// raises flags or clears bits by itself, a driver brings the image up to date with `load`
/// before a register is read. Accesses that change a register are logged as they were made,
/// so that a driver can repeat them on the peripheral.
pub struct Registers {
    values: [u32; REG_COUNT],
    log: Vec<Access>,
}

impl View for Registers {
    type V = RegState;

    closed spec fn view(&self) -> RegState {
        RegState { values: |reg: Reg| self.values@[reg.slot() as int], log: self.log@ }
    }
}

impl Registers {
    /// An image in which every register is 0 and no access is logged.
    pub fn new() -> (image: Registers)
        ensures
            image@ == (RegState { values: |reg: Reg| 0u32, log: Seq::empty() }),
    {
        let image = Registers { values: [0;REG_COUNT], log: Vec::new() };
        assert(image@.values =~= |reg: Reg| 0u32);
        image
    }

    /// Takes over a register's content from the peripheral. This is no access to be repeated.
    pub fn load(&mut self, reg: Reg, value: u32)
        ensures
            final(self)@ == (RegState {
                values: old(self)@.with_value(reg, value),
                log: old(self)@.log,
            }),
    {
        let index = reg.index();
        self.values[index] = value;
        assert(self@.values =~= old(self)@.with_value(reg, value));
    }

    /// The content of a register.
    pub fn get(&self, reg: Reg) -> (value: u32)
        ensures
            value == self@.get(reg),
    {
        self.values[reg.index()]
    }

    /// Performs an access on the image and logs it.
    pub fn perform(&mut self, access: Access)
        ensures
            final(self)@ == old(self)@.perform(access),
    {
        let reg = match access {
            Access::Write { reg, .. } => reg,
            Access::Modify { reg, .. } => reg,
        };
        let index = reg.index();
        self.values[index] = access.outcome(self.values[index]);
        self.log.push(access);
        assert(self@.values =~= old(self)@.perform(access).values);
    }

    /// Writes a register.
    pub fn write(&mut self, reg: Reg, value: u32)
        ensures
            final(self)@ == old(self)@.write(reg, value),
    {
        self.perform(Access::Write { reg, value });
    }

    /// Replaces bits of a register.
    pub fn modify(&mut self, reg: Reg, change: Change)
        ensures
            final(self)@ == old(self)@.modify(reg, change),
    {
        self.perform(Access::Modify { reg, change });
    }

    /// Sets a field to the lowest bits of `value` and keeps the rest of its register.
    pub fn set(&mut self, field: Field, value: u32)
        ensures
            final(self)@ == old(self)@.set(field, value),
    {
        self.modify(field.reg(), Change::keep().with(field, value));
    }

    /// Reads a field.
    pub fn field(&self, field: Field) -> (value: u32)
        ensures
            value == self@.field(field),
    {
        field.read(self.get(field.reg()))
    }

    /// Hands out the logged accesses, oldest first, and empties the log.
    pub fn take_log(&mut self) -> (accesses: Vec<Access>)
        ensures
            accesses@ == old(self)@.log,
            final(self)@ == (RegState { values: old(self)@.values, log: Seq::empty() }),
    {
        let mut accesses = Vec::new();
        core::mem::swap(&mut self.log, &mut accesses);
        accesses
    }
}

} // verus!
