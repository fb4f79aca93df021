//! The settings of a timer, and the numbers that stand for them in its registers.

use vstd::prelude::*;

verus! {

/// Used for when attempting to set a timer period that is out of range.
#[derive(Clone, Copy, Debug, PartialEq, Eq, Structural)]
pub struct ValueError {}

/// The register value of a flag.
pub open spec fn spec_flag(on: bool) -> u32 {
    if on {
        1
    } else {
        0
    }
}

/// The register value of a flag: 1 where it is on, 0 where it is off.
#[verifier::when_used_as_spec(spec_flag)]
pub fn flag(on: bool) -> (value: u32)
    ensures
        value == spec_flag(on),
{
    if on {
        1
    } else {
        0
    }
}


/// Selects the trigger input to be used to synchronize the counter. Sets the SMCR register,
/// TS field.
#[derive(Clone, Copy, Debug, PartialEq, Eq, Structural)]
pub enum InputTrigger {
    /// Internal trigger 0 (ITR0).
    Internal0,
    /// Internal trigger 1 (ITR1).
    Internal1,
    /// Internal trigger 2 (ITR2).
    Internal2,
    /// Internal trigger 3 (ITR3).
    Internal3,
    /// TI1 edge detector (TI1F_ED).
    Ti1Edge,
    /// Filtered timer input 1 (TI1FP1).
    FilteredTimerInput1,
    /// Filtered timer input 2 (TI2FP2).
    FilteredTimerInput2,
    /// External trigger input (ETRF).
    ExternalTriggerInput,
    /// Internal trigger 4 (ITR4).
    Internal4,
    /// Internal trigger 5 (ITR5).
    Internal5,
    /// Internal trigger 6 (ITR6).
    Internal6,
    /// Internal trigger 7 (ITR7).
    Internal7,
    /// Internal trigger 8 (ITR8).
    Internal8,
    /// Internal trigger 9 (ITR9).
    Internal9,
    /// Internal trigger 10 (ITR10).
    Internal10,
    /// Internal trigger 11 (ITR11).
    Internal11,
    /// Internal trigger 12 (ITR12).
    Internal12,
    /// Internal trigger 13 (ITR13).
    Internal13,
}

impl InputTrigger {
    pub open spec fn spec_code(self) -> u32 {
        match self {
            InputTrigger::Internal0 => 0b00000,
            InputTrigger::Internal1 => 0b00001,
            InputTrigger::Internal2 => 0b00010,
            InputTrigger::Internal3 => 0b00011,
            InputTrigger::Ti1Edge => 0b00100,
            InputTrigger::FilteredTimerInput1 => 0b00101,
            InputTrigger::FilteredTimerInput2 => 0b00110,
            InputTrigger::ExternalTriggerInput => 0b00111,
            InputTrigger::Internal4 => 0b01000,
            InputTrigger::Internal5 => 0b01001,
            InputTrigger::Internal6 => 0b01010,
            InputTrigger::Internal7 => 0b01011,
            InputTrigger::Internal8 => 0b01100,
            InputTrigger::Internal9 => 0b01101,
            InputTrigger::Internal10 => 0b01110,
            InputTrigger::Internal11 => 0b01111,
            InputTrigger::Internal12 => 0b10000,
            InputTrigger::Internal13 => 0b10001,
        }
    }

    /// The value of the TS field, five bits wide.
    #[verifier::when_used_as_spec(spec_code)]
    pub fn code(self) -> (code: u32)
        ensures
            code == self.spec_code(),
    {
        match self {
            InputTrigger::Internal0 => 0b00000,
            InputTrigger::Internal1 => 0b00001,
            InputTrigger::Internal2 => 0b00010,
            InputTrigger::Internal3 => 0b00011,
            InputTrigger::Ti1Edge => 0b00100,
            InputTrigger::FilteredTimerInput1 => 0b00101,
            InputTrigger::FilteredTimerInput2 => 0b00110,
            InputTrigger::ExternalTriggerInput => 0b00111,
            InputTrigger::Internal4 => 0b01000,
            InputTrigger::Internal5 => 0b01001,
            InputTrigger::Internal6 => 0b01010,
            InputTrigger::Internal7 => 0b01011,
            InputTrigger::Internal8 => 0b01100,
            InputTrigger::Internal9 => 0b01101,
            InputTrigger::Internal10 => 0b01110,
            InputTrigger::Internal11 => 0b01111,
            InputTrigger::Internal12 => 0b10000,
            InputTrigger::Internal13 => 0b10001,
        }
    }
}

/// When external signals are selected, the active edge of the trigger signal (TRGI) is linked
/// to the polarity selected on the external input. Sets the SMCR register, SMS field.
#[derive(Clone, Copy, Debug, PartialEq, Eq, Structural)]
pub enum InputSlaveMode {
    /// Slave mode disabled: if CEN = 1 then the prescaler is clocked directly by the
    /// internal clock.
    Disabled,
    /// Encoder mode 1: the counter counts up/down on TI1FP1 edge depending on TI2FP2 level.
    Encoder1,
    /// Encoder mode 2: the counter counts up/down on TI2FP2 edge depending on TI1FP1 level.
    Encoder2,
    /// Encoder mode 3: the counter counts up/down on both TI1FP1 and TI2FP2 edges depending on
    /// the level of the other input.
    Encoder3,
    /// Reset mode: a rising edge of the selected trigger input (TRGI) reinitializes the
    /// counter and generates an update of the registers.
    Reset,
    /// Gated mode: the counter clock is enabled when the trigger input (TRGI) is high. The
    /// counter stops, but is not reset, as soon as the trigger becomes low.
    Gated,
    /// Trigger mode: the counter starts at a rising edge of the trigger TRGI, but it is not
    /// reset.
    Trigger,
    /// External clock mode 1: rising edges of the selected trigger (TRGI) clock the counter.
    ExternalClock1,
    /// Combined reset and trigger mode: a rising edge of the selected trigger input (TRGI)
    /// reinitializes the counter, generates an update of the registers and starts the counter.
    CombinedResetTrigger,
}

impl InputSlaveMode {
    pub open spec fn spec_code(self) -> u32 {
        match self {
            InputSlaveMode::Disabled => 0b0000,
            InputSlaveMode::Encoder1 => 0b0001,
            InputSlaveMode::Encoder2 => 0b0010,
            InputSlaveMode::Encoder3 => 0b0011,
            InputSlaveMode::Reset => 0b0100,
            InputSlaveMode::Gated => 0b0101,
            InputSlaveMode::Trigger => 0b0110,
            InputSlaveMode::ExternalClock1 => 0b0111,
            InputSlaveMode::CombinedResetTrigger => 0b1000,
        }
    }

    /// The value of the SMS field, four bits wide.
    #[verifier::when_used_as_spec(spec_code)]
    pub fn code(self) -> (code: u32)
        ensures
            code == self.spec_code(),
    {
        match self {
            InputSlaveMode::Disabled => 0b0000,
            InputSlaveMode::Encoder1 => 0b0001,
            InputSlaveMode::Encoder2 => 0b0010,
            InputSlaveMode::Encoder3 => 0b0011,
            InputSlaveMode::Reset => 0b0100,
            InputSlaveMode::Gated => 0b0101,
            InputSlaveMode::Trigger => 0b0110,
            InputSlaveMode::ExternalClock1 => 0b0111,
            InputSlaveMode::CombinedResetTrigger => 0b1000,
        }
    }
}

/// Selects the information that is sent in master mode to slave timers for synchronization
/// (TRGO). Sets the CR2 register, MMS field.
#[derive(Clone, Copy, Debug, PartialEq, Eq, Structural)]
pub enum MasterModeSelection {
    /// The UG bit from the EGR register is used as trigger output.
    Reset,
    /// The counter enable signal CNT_EN is used as trigger output.
    Enable,
    /// The update event is selected as trigger output. A master timer can then be used as a
    /// prescaler for a slave timer.
    Update,
    /// The trigger output sends a positive pulse when the CC1IF flag is to be set, as soon as
    /// a capture or a compare match occurred.
    ComparePulse,
    /// The OC1REF signal is used as trigger output.
    Compare1,
    /// The OC2REF signal is used as trigger output.
    Compare2,
    /// The OC3REF signal is used as trigger output.
    Compare3,
    /// The OC4REF signal is used as trigger output.
    Compare4,
}

impl MasterModeSelection {
    pub open spec fn spec_code(self) -> u32 {
        match self {
            MasterModeSelection::Reset => 0b000,
            MasterModeSelection::Enable => 0b001,
            MasterModeSelection::Update => 0b010,
            MasterModeSelection::ComparePulse => 0b011,
            MasterModeSelection::Compare1 => 0b100,
            MasterModeSelection::Compare2 => 0b101,
            MasterModeSelection::Compare3 => 0b110,
            MasterModeSelection::Compare4 => 0b111,
        }
    }

    /// The value of the MMS field, three bits wide.
    #[verifier::when_used_as_spec(spec_code)]
    pub fn code(self) -> (code: u32)
        ensures
            code == self.spec_code(),
    {
        match self {
            MasterModeSelection::Reset => 0b000,
            MasterModeSelection::Enable => 0b001,
            MasterModeSelection::Update => 0b010,
            MasterModeSelection::ComparePulse => 0b011,
            MasterModeSelection::Compare1 => 0b100,
            MasterModeSelection::Compare2 => 0b101,
            MasterModeSelection::Compare3 => 0b110,
            MasterModeSelection::Compare4 => 0b111,
        }
    }
}

/// A timer interrupt or DMA request.
#[derive(Clone, Copy, Debug, PartialEq, Eq, Structural)]
pub enum TimerInterrupt {
    /// Update interrupt; can be used for a timeout.
    Update,
    /// Trigger interrupt.
    Trigger,
    /// Capture/compare interrupt of channel 1.
    CaptureCompare1,
    /// Capture/compare interrupt of channel 2.
    CaptureCompare2,
    /// Capture/compare interrupt of channel 3.
    CaptureCompare3,
    /// Capture/compare interrupt of channel 4.
    CaptureCompare4,
    /// Update DMA request.
    UpdateDma,
    /// Trigger DMA request.
    TriggerDma,
    /// Capture/compare DMA request of channel 1.
    CaptureCompare1Dma,
    /// Capture/compare DMA request of channel 2.
    CaptureCompare2Dma,
    /// Capture/compare DMA request of channel 3.
    CaptureCompare3Dma,
    /// Capture/compare DMA request of channel 4.
    CaptureCompare4Dma,
}

/// Output alignment. Sets the CR1 register, CMS field.
#[derive(Clone, Copy, Debug, PartialEq, Eq, Structural)]
pub enum Alignment {
    /// Edge-aligned mode: the counter counts up or down depending on the direction bit (DIR).
    Edge,
    /// Center-aligned mode 1: the counter counts up and down alternatively. Output compare
    /// interrupt flags are set only when the counter is counting down.
    Center1,
    /// Center-aligned mode 2: the counter counts up and down alternatively. Output compare
    /// interrupt flags are set only when the counter is counting up.
    Center2,
    /// Center-aligned mode 3: the counter counts up and down alternatively. Output compare
    /// interrupt flags are set both when the counter is counting up or down.
    Center3,
}

impl Alignment {
    pub open spec fn spec_code(self) -> u32 {
        match self {
            Alignment::Edge => 0b00,
            Alignment::Center1 => 0b01,
            Alignment::Center2 => 0b10,
            Alignment::Center3 => 0b11,
        }
    }

    /// The value of the CMS field, two bits wide.
    #[verifier::when_used_as_spec(spec_code)]
    pub fn code(self) -> (code: u32)
        ensures
            code == self.spec_code(),
    {
        match self {
            Alignment::Edge => 0b00,
            Alignment::Center1 => 0b01,
            Alignment::Center2 => 0b10,
            Alignment::Center3 => 0b11,
        }
    }
}

/// A timer channel.
#[derive(Clone, Copy, Debug, PartialEq, Eq, Structural)]
pub enum TimChannel {
    C1,
    C2,
    C3,
    C4,
}

/// Timer count direction. Defaults to `Up`.
#[derive(Clone, Copy, Debug, PartialEq, Eq, Structural)]
pub enum CountDir {
    Up,
    Down,
}

impl CountDir {
    pub open spec fn spec_code(self) -> u32 {
        match self {
            CountDir::Up => 0,
            CountDir::Down => 1,
        }
    }

    /// The value of the DIR field.
    #[verifier::when_used_as_spec(spec_code)]
    pub fn code(self) -> (code: u32)
        ensures
            code == self.spec_code(),
    {
        match self {
            CountDir::Up => 0,
            CountDir::Down => 1,
        }
    }
}

/// Capture/compare selection: the direction of a channel, and the input that it uses. Sets the
/// CCMR1 and CCMR2 registers, CCxS fields.
#[derive(Clone, Copy, Debug, PartialEq, Eq, Structural)]
pub enum CaptureCompare {
    Output,
    InputTi1,
    InputTi2,
    InputTrc,
}

impl CaptureCompare {
    pub open spec fn spec_code(self) -> u32 {
        match self {
            CaptureCompare::Output => 0b00,
            CaptureCompare::InputTi1 => 0b01,
            CaptureCompare::InputTi2 => 0b10,
            CaptureCompare::InputTrc => 0b11,
        }
    }

    /// The value of the CCxS field, two bits wide.
    #[verifier::when_used_as_spec(spec_code)]
    pub fn code(self) -> (code: u32)
        ensures
            code == self.spec_code(),
    {
        match self {
            CaptureCompare::Output => 0b00,
            CaptureCompare::InputTi1 => 0b01,
            CaptureCompare::InputTi2 => 0b10,
            CaptureCompare::InputTrc => 0b11,
        }
    }
}

/// Capture/compare output polarity. Defaults to `ActiveHigh` in hardware. Sets the CCER
/// register, CCxP and CCxNP fields.
#[derive(Clone, Copy, Debug, PartialEq, Eq, Structural)]
pub enum Polarity {
    ActiveHigh,
    ActiveLow,
}

impl Polarity {
    pub open spec fn spec_bit(&self) -> bool {
        *self == Polarity::ActiveLow
    }

    /// The polarity bit: set for `ActiveLow`.
    #[verifier::when_used_as_spec(spec_bit)]
    pub fn bit(&self) -> (bit: bool)
        ensures
            bit == self.spec_bit(),
    {
        match self {
            Polarity::ActiveHigh => false,
            Polarity::ActiveLow => true,
        }
    }
}

/// The behavior of the output reference signal OCxREF, from which OCx and OCxN are derived.
/// OCxREF is active high, whereas the active level of OCx and OCxN depends on the CCxP and
/// CCxNP bits. Sets the CCMR1 and CCMR2 registers, OCxM fields.
#[derive(Clone, Copy, Debug, PartialEq, Eq, Structural)]
pub enum OutputCompare {
    /// The comparison between the compare register and the counter has no effect on the
    /// outputs. This mode is used to generate a timing base.
    Frozen,
    /// The channel is set to its active level on match.
    Active,
    /// The channel is set to its inactive level on match.
    Inactive,
    /// OCxREF toggles on match.
    Toggle,
    /// OCxREF is forced low.
    ForceInactive,
    /// OCxREF is forced high.
    ForceActive,
    /// PWM mode 1: in upcounting, the channel is active as long as the counter is below the
    /// compare register. In downcounting, it is inactive as long as the counter is above it.
    Pwm1,
    /// PWM mode 2: active where PWM mode 1 is inactive, and the other way round.
    Pwm2,
    /// Retriggerable one-pulse mode 1.
    RetriggerableOpmMode1,
    /// Retriggerable one-pulse mode 2.
    RetriggerableOpmMode2,
    /// Combined PWM mode 1: as PWM mode 1, with the logical OR of OC1REF and OC2REF.
    CombinedPwm1,
    /// Combined PWM mode 2: as PWM mode 2, with the logical AND of OC1REF and OC2REF.
    CombinedPwm2,
    /// Asymmetric PWM mode 1: as PWM mode 1, with OC1REF when the counter is counting up,
    /// OC2REF when it is counting down.
    AsymmetricPwm1,
    /// Asymmetric PWM mode 2: as PWM mode 2, with OC1REF when the counter is counting up,
    /// OC2REF when it is counting down.
    AsymmetricPwm2,
}

impl OutputCompare {
    pub open spec fn spec_code(self) -> u32 {
        match self {
            OutputCompare::Frozen => 0b0000,
            OutputCompare::Active => 0b0001,
            OutputCompare::Inactive => 0b0010,
            OutputCompare::Toggle => 0b0011,
            OutputCompare::ForceInactive => 0b0100,
            OutputCompare::ForceActive => 0b0101,
            OutputCompare::Pwm1 => 0b0110,
            OutputCompare::Pwm2 => 0b0111,
            OutputCompare::RetriggerableOpmMode1 => 0b1000,
            OutputCompare::RetriggerableOpmMode2 => 0b1001,
            OutputCompare::CombinedPwm1 => 0b1100,
            OutputCompare::CombinedPwm2 => 0b1101,
            OutputCompare::AsymmetricPwm1 => 0b1110,
            OutputCompare::AsymmetricPwm2 => 0b1111,
        }
    }

    /// The value of the OCxM selection, four bits wide.
    #[verifier::when_used_as_spec(spec_code)]
    pub fn code(self) -> (code: u32)
        ensures
            code == self.spec_code(),
    {
        match self {
            OutputCompare::Frozen => 0b0000,
            OutputCompare::Active => 0b0001,
            OutputCompare::Inactive => 0b0010,
            OutputCompare::Toggle => 0b0011,
            OutputCompare::ForceInactive => 0b0100,
            OutputCompare::ForceActive => 0b0101,
            OutputCompare::Pwm1 => 0b0110,
            OutputCompare::Pwm2 => 0b0111,
            OutputCompare::RetriggerableOpmMode1 => 0b1000,
            OutputCompare::RetriggerableOpmMode2 => 0b1001,
            OutputCompare::CombinedPwm1 => 0b1100,
            OutputCompare::CombinedPwm2 => 0b1101,
            OutputCompare::AsymmetricPwm1 => 0b1110,
            OutputCompare::AsymmetricPwm2 => 0b1111,
        }
    }
}

/// Update request source. Sets the CR1 register, URS field.
#[derive(Clone, Copy, Debug, PartialEq, Eq, Structural)]
pub enum UpdateReqSrc {
    /// Any of counter overflow/underflow, setting the UG bit, and update generation through
    /// the slave mode controller generates an update interrupt or DMA request.
    Any,
    /// Only counter overflow/underflow generates an update interrupt or DMA request.
    OverUnderFlow,
}

impl UpdateReqSrc {
    pub open spec fn spec_code(self) -> u32 {
        match self {
            UpdateReqSrc::Any => 0,
            UpdateReqSrc::OverUnderFlow => 1,
        }
    }

    /// The value of the URS field.
    #[verifier::when_used_as_spec(spec_code)]
    pub fn code(self) -> (code: u32)
        ensures
            code == self.spec_code(),
    {
        match self {
            UpdateReqSrc::Any => 0,
            UpdateReqSrc::OverUnderFlow => 1,
        }
    }
}

/// Capture/compare DMA selection. Sets the CR2 register, CCDS field.
#[derive(Clone, Copy, Debug, PartialEq, Eq, Structural)]
pub enum CaptureCompareDma {
    /// CCx DMA request sent when a CCx event occurs.
    Ccx,
    /// CCx DMA requests sent when an update event occurs.
    Update,
}

impl CaptureCompareDma {
    pub open spec fn spec_code(self) -> u32 {
        match self {
            CaptureCompareDma::Ccx => 0,
            CaptureCompareDma::Update => 1,
        }
    }

    /// The value of the CCDS field.
    #[verifier::when_used_as_spec(spec_code)]
    pub fn code(self) -> (code: u32)
        ensures
            code == self.spec_code(),
    {
        match self {
            CaptureCompareDma::Ccx => 0,
            CaptureCompareDma::Update => 1,
        }
    }
}

/// Initial configuration data for timer peripherals.
#[derive(Clone, Copy, Debug, PartialEq, Eq, Structural)]
pub struct TimerConfig {
    /// If `one_pulse_mode` is true, the counter stops counting at the next update event
    /// (clearing the bit CEN). If false, the counter is not stopped at update event. Defaults
    /// to false. Sets the CR1 register, OPM field.
    pub one_pulse_mode: bool,
    /// Update request source: counter overflow/underflow only, or any. Defaults to any.
    pub update_request_source: UpdateReqSrc,
    /// Set `true` to buffer the preload. Useful when changing period and duty while the timer
    /// is running. Defaults to false.
    pub auto_reload_preload: bool,
    /// Select center or edge alignment. Defaults to edge.
    pub alignment: Alignment,
    /// Sets when CCx DMA requests occur. Defaults to on CCx event.
    pub capture_compare_dma: CaptureCompareDma,
    /// Timer counting direction. Defaults to up.
    pub direction: CountDir,
}

impl Default for TimerConfig {
    fn default() -> (cfg: Self)
        ensures
            cfg == (TimerConfig {
                one_pulse_mode: false,
                update_request_source: UpdateReqSrc::Any,
                auto_reload_preload: false,
                alignment: Alignment::Edge,
                capture_compare_dma: CaptureCompareDma::Ccx,
                direction: CountDir::Up,
            }),
    {
        TimerConfig {
            one_pulse_mode: false,
            update_request_source: UpdateReqSrc::Any,
            auto_reload_preload: false,
            alignment: Alignment::Edge,
            capture_compare_dma: CaptureCompareDma::Ccx,
            direction: CountDir::Up,
        }
    }
}

impl Alignment {
    pub open spec fn spec_freq_factor(self) -> u32 {
        if self == Alignment::Edge {
            1
        } else {
            2
        }
    }

    /// By what a requested frequency is multiplied before the prescaler and the auto-reload
    /// value are chosen: a center-aligned counter runs up and down in each period.
    #[verifier::when_used_as_spec(spec_freq_factor)]
    pub fn freq_factor(self) -> (factor: u32)
        ensures
            factor == self.spec_freq_factor(),
    {
        match self {
            Alignment::Edge => 1,
            _ => 2,
        }
    }
}

} // verus!
