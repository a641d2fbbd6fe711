//! The sound unit, as a register file only: values written are kept and read
//! back, and nothing is synthesised.

use vstd::prelude::*;

verus! {

// Square 1
/// Square 1: sweep.
pub const NR10: u16 = 0xFF10;

/// Square 1: length and duty.
pub const NR11: u16 = 0xFF11;

/// Square 1: volume and envelope.
pub const NR12: u16 = 0xFF12;

/// Square 1: wavelength, low byte.
pub const NR13: u16 = 0xFF13;

/// Square 1: wavelength, high bits, and control.
pub const NR14: u16 = 0xFF14;

// Square 2
/// Square 2: length and duty.
pub const NR21: u16 = 0xFF16;

/// Square 2: volume and envelope.
pub const NR22: u16 = 0xFF17;

/// Square 2: wavelength, low byte.
pub const NR23: u16 = 0xFF18;

/// Square 2: wavelength, high bits, and control.
pub const NR24: u16 = 0xFF19;

// Wave
/// Wave: DAC enable.
pub const NR30: u16 = 0xFF1A;

/// Wave: length timer.
pub const NR31: u16 = 0xFF1B;

/// Wave: output level.
pub const NR32: u16 = 0xFF1C;

/// Wave: wavelength, low byte.
pub const NR33: u16 = 0xFF1D;

/// Wave: wavelength, high bits, and control.
pub const NR34: u16 = 0xFF1E;

// Noise
/// Noise: not used.
pub const NR40: u16 = 0xFF1F;

/// Noise: length timer.
pub const NR41: u16 = 0xFF20;

/// Noise: volume and envelope.
pub const NR42: u16 = 0xFF21;

/// Noise: frequency and randomness.
pub const NR43: u16 = 0xFF22;

/// Noise: control.
pub const NR44: u16 = 0xFF23;

// Control and status
/// Master volume and VIN panning.
pub const NR50: u16 = 0xFF24;

/// Sound panning.
pub const NR51: u16 = 0xFF25;

/// Sound on and off.
pub const NR52: u16 = 0xFF26;

// Wave table
/// The first byte of the wave table.
pub const WAVE_BEGIN: u16 = 0xFF30;

/// The last byte of the wave table.
pub const WAVE_END: u16 = 0xFF3F;

/// Number of addresses from NR10 to the end of the wave table.
pub const APU_SIZE: usize = 0x30;

/// One byte for each address from NR10 to WAVE_END, at index `address - NR10`.
pub struct Apu {
    pub regs: [u8; 0x30],
}

/// The addresses between NR52 and the wave table hold no register.
pub open spec fn is_unused(address: u16) -> bool {
    NR52 < address < WAVE_BEGIN
}

/// The 23 channel and control registers after power-on, from NR10 on.
pub open spec fn power_on_registers() -> Seq<u8> {
    seq![
        0x80u8, 0xBF, 0xF3, 0xFF, 0xBF,
        0xFF, 0x3F, 0x00, 0xFF, 0xBF,
        0x7F, 0xFF, 0x9F, 0xFF, 0xBF,
        0xFF, 0xFF, 0x00, 0x00, 0xBF,
        0x77, 0xF3, 0xF1,
    ]
}

impl View for Apu {
    type V = Seq<u8>;

    open spec fn view(&self) -> Seq<u8> {
        self.regs@
    }
}

/// The register file after a reset: the channel and control registers take
/// their power-on values, the rest is kept.
pub open spec fn apu_after_reset(regs: Seq<u8>) -> Seq<u8> {
    Seq::new(
        0x30,
        |i: int|
            if i < 23 {
                power_on_registers()[i]
            } else {
                regs[i]
            },
    )
}

/// The register file at power-on: the channel and control registers with
/// their power-on values, and a wave table of zeros.
pub open spec fn apu_power_on() -> Seq<u8> {
    apu_after_reset(Seq::new(0x30, |i: int| 0u8))
}

/// What a read gives: 0xFF where there is no register.
pub open spec fn apu_read(regs: Seq<u8>, address: u16) -> u8
    recommends
        NR10 <= address <= WAVE_END,
        regs.len() == 0x30,
{
    if is_unused(address) {
        0xFF
    } else {
        regs[address - NR10]
    }
}

/// The register file after a write: nothing changes where there is no register.
pub open spec fn apu_after_write(regs: Seq<u8>, address: u16, value: u8) -> Seq<u8>
    recommends
        NR10 <= address <= WAVE_END,
        regs.len() == 0x30,
{
    if is_unused(address) {
        regs
    } else {
        regs.update(address - NR10, value)
    }
}

impl Apu {
    /// The sound unit at power-on.
    pub fn new() -> (a: Apu)
        ensures
            a@ == apu_power_on(),
    {
        let mut a = Apu { regs: [0; 0x30] };
        a.reset();
        assert(a@ =~= apu_power_on());
        a
    }

    /// The channel and control registers take their power-on values; the
    /// wave table keeps what it holds.
    pub fn reset(&mut self)
        ensures
            final(self)@ == apu_after_reset(old(self)@),
    {
        let init: [u8; 23] = [
            0x80, 0xBF, 0xF3, 0xFF, 0xBF,
            0xFF, 0x3F, 0x00, 0xFF, 0xBF,
            0x7F, 0xFF, 0x9F, 0xFF, 0xBF,
            0xFF, 0xFF, 0x00, 0x00, 0xBF,
            0x77, 0xF3, 0xF1,
        ];
        let mut i: usize = 0;
        while i < 23
            invariant
                i <= 23,
                init@ =~= power_on_registers(),
                forall|j: int| 0 <= j < i ==> self.regs@[j] == init@[j],
                forall|j: int| i <= j < 0x30 ==> self.regs@[j] == old(self).regs@[j],
            decreases 23 - i,
        {
            self.regs[i] = init[i];
            i = i + 1;
        }
        assert(self@ =~= apu_after_reset(old(self)@));
    }

    /// Reads the byte at `address`.
    pub fn b(&self, address: u16) -> (value: u8)
        requires
            NR10 <= address <= WAVE_END,
        ensures
            value == apu_read(self@, address),
    {
        if NR52 < address && address < WAVE_BEGIN {
            0xFF
        } else {
            self.regs[(address - NR10) as usize]
        }
    }

    /// Writes `value` at `address`.
    pub fn wb(&mut self, address: u16, value: u8)
        requires
            NR10 <= address <= WAVE_END,
        ensures
            final(self)@ == apu_after_write(old(self)@, address, value),
    {
        if !(NR52 < address && address < WAVE_BEGIN) {
            self.regs[(address - NR10) as usize] = value;
        }
    }
}

} // verus!
