//! The register identity table: every modelled hardware register, the bus
//! address it answers to, and the conversions between the two.

use vstd::prelude::*;
use vstd::std_specs::convert::FromSpecImpl;
use vstd::std_specs::convert::TryFromSpecImpl;

verus! {

/// The hardware registers of the memory-mapped I/O area, named as in
/// [`hardware.inc`](https://github.com/gbdev/hardware.inc).
///
/// The set is closed: each register has exactly one bus address, given by
/// [`HwReg::address`], and no two registers share one.
#[derive(Clone, Copy, Debug, PartialEq, Eq, Hash, Structural)]
#[non_exhaustive]
pub enum HwReg {
    /// MBC SRAM enable. Address `0x0000`.
    Ramg,
    /// MBC ROM bank switch, low 8 bits. Address `0x2000`.
    Romb0,
    /// MBC ROM bank switch, upper 8 bits. Address `0x3000`.
    Romb1,
    /// MBC SRAM bank switch. Address `0x4000`.
    Ramb,
    /// MBC RTC latch toggle. Address `0x6000`.
    Rtclatch,
    /// Joypad. Address `0xFF00`.
    P1,
    /// Serial data. Address `0xFF01`.
    Sb,
    /// Serial control. Address `0xFF02`.
    Sc,
    /// Divided clock counter. Address `0xFF04`.
    Div,
    /// Timer counter. Address `0xFF05`.
    Tima,
    /// Timer modulo. Address `0xFF06`.
    Tma,
    /// Timer control. Address `0xFF07`.
    Tac,
    /// Pending interrupts. Address `0xFF0F`.
    If,
    /// CH1 frequency sweep. Address `0xFF10`.
    Nr10,
    /// CH1 duty control & sound length. Address `0xFF11`.
    Nr11,
    /// CH1 volume control. Address `0xFF12`.
    Nr12,
    /// CH1 wave_length, low 8 bits. Address `0xFF13`.
    Nr13,
    /// CH1 wave_length, upper 3 bits & control. Address `0xFF14`.
    Nr14,
    /// CH2 duty control & sound length. Address `0xFF16`.
    Nr21,
    /// CH2 volume control. Address `0xFF17`.
    Nr22,
    /// CH2 wave_length, low 8 bits. Address `0xFF18`.
    Nr23,
    /// CH2 wave_length, upper 3 bits & control. Address `0xFF19`.
    Nr24,
    /// CH3 enable. Address `0xFF1A`.
    Nr30,
    /// CH3 sound length. Address `0xFF1B`.
    Nr31,
    /// CH3 volume control. Address `0xFF1C`.
    Nr32,
    /// CH3 wave_length, low 8 bits. Address `0xFF1D`.
    Nr33,
    /// CH3 wave_length, upper 3 bits. Address `0xFF1E`.
    Nr34,
    /// CH4 sound length. Address `0xFF20`.
    Nr41,
    /// CH4 volume control. Address `0xFF21`.
    Nr42,
    /// CH4 LFSR control. Address `0xFF22`.
    Nr43,
    /// CH4 control. Address `0xFF23`.
    Nr44,
    /// Master volume & VIN panning. Address `0xFF24`.
    Nr50,
    /// Sound panning. Address `0xFF25`.
    Nr51,
    /// Audio control. Address `0xFF26`.
    Nr52,
    /// CH3 wave pattern, byte 0. Address `0xFF30`.
    Wave0,
    /// CH3 wave pattern, byte 1. Address `0xFF31`.
    Wave1,
    /// CH3 wave pattern, byte 2. Address `0xFF32`.
    Wave2,
    /// CH3 wave pattern, byte 3. Address `0xFF33`.
    Wave3,
    /// CH3 wave pattern, byte 4. Address `0xFF34`.
    Wave4,
    /// CH3 wave pattern, byte 5. Address `0xFF35`.
    Wave5,
    /// CH3 wave pattern, byte 6. Address `0xFF36`.
    Wave6,
    /// CH3 wave pattern, byte 7. Address `0xFF37`.
    Wave7,
    /// CH3 wave pattern, byte 8. Address `0xFF38`.
    Wave8,
    /// CH3 wave pattern, byte 9. Address `0xFF39`.
    Wave9,
    /// CH3 wave pattern, byte 10. Address `0xFF3A`.
    WaveA,
    /// CH3 wave pattern, byte 11. Address `0xFF3B`.
    WaveB,
    /// CH3 wave pattern, byte 12. Address `0xFF3C`.
    WaveC,
    /// CH3 wave pattern, byte 13. Address `0xFF3D`.
    WaveD,
    /// CH3 wave pattern, byte 14. Address `0xFF3E`.
    WaveE,
    /// CH3 wave pattern, byte 15. Address `0xFF3F`.
    WaveF,
    /// LCD control. Address `0xFF40`.
    Lcdc,
    /// LCD status. Address `0xFF41`.
    Stat,
    /// Viewport vertical offset. Address `0xFF42`.
    Scy,
    /// Viewport horizontal offset. Address `0xFF43`.
    Scx,
    /// Current scanline. Address `0xFF44`.
    Ly,
    /// LY comparison. Address `0xFF45`.
    Lyc,
    /// OAM DMA source & start. Address `0xFF46`.
    Dma,
    /// DMG background palette. Address `0xFF47`.
    Bgp,
    /// DMG OBJ palette 0. Address `0xFF48`.
    Obp0,
    /// DMG OBJ palette 1. Address `0xFF49`.
    Obp1,
    /// Window Y coordinate. Address `0xFF4A`.
    Wy,
    /// Window X coordinate. Address `0xFF4B`.
    Wx,
    /// CGB speed switch. Address `0xFF4D`.
    Key1,
    /// CGB VRAM bank switch. Address `0xFF4F`.
    Vbk,
    /// CGB DMA source, upper 8 bits. Address `0xFF51`.
    Hdma1,
    /// CGB DMA source, lower 8 bits. Address `0xFF52`.
    Hdma2,
    /// CGB DMA destination, upper 8 bits. Address `0xFF53`.
    Hdma3,
    /// CGB DMA destination, lower 8 bits. Address `0xFF54`.
    Hdma4,
    /// CGB DMA length & mode & start. Address `0xFF55`.
    Hdma5,
    /// CGB IR. Address `0xFF56`.
    Rp,
    /// CGB BG palette address. Address `0xFF68`.
    Bcps,
    /// CGB BG palette data. Address `0xFF69`.
    Bcpd,
    /// CGB OBJ palette address. Address `0xFF6A`.
    Ocps,
    /// CGB OBJ palette data. Address `0xFF6B`.
    Ocpd,
    /// CGB WRAM bank switch. Address `0xFF70`.
    Svbk,
    /// CH1 & CH2 digital output. Address `0xFF76`.
    Pcm12,
    /// CH3 & CH4 digital output. Address `0xFF77`.
    Pcm34,
    /// Enabled interrupts. Address `0xFFFF`.
    Ie,
}

/// The failure of address resolution: no register answers to `address`.
#[derive(Clone, Copy, Debug, PartialEq, Eq, Hash, Structural)]
pub struct UnknownAddress {
    /// The address that was asked for.
    pub address: u16,
}

/// An input from outside the machine that a register stands for. Nothing
/// feeds such a register yet: it keeps what was last written to it, and a
/// read of it owes the caller a notice that the input is missing.
#[derive(Clone, Copy, Debug, PartialEq, Eq, Hash, Structural)]
pub enum InputSource {
    /// The buttons, seen through [`HwReg::P1`].
    Joypad,
    /// The bytes that arrive on the link cable, seen through [`HwReg::Sb`].
    Serial,
}

/// How many registers [`HwReg`] names.
pub const REGISTER_COUNT: usize = 78;

impl HwReg {
    /// The bus address of the register.
    pub open spec fn address(self) -> u16 {
        match self {
            HwReg::Ramg => 0x0000,
            HwReg::Romb0 => 0x2000,
            HwReg::Romb1 => 0x3000,
            HwReg::Ramb => 0x4000,
            HwReg::Rtclatch => 0x6000,
            HwReg::P1 => 0xFF00,
            HwReg::Sb => 0xFF01,
            HwReg::Sc => 0xFF02,
            HwReg::Div => 0xFF04,
            HwReg::Tima => 0xFF05,
            HwReg::Tma => 0xFF06,
            HwReg::Tac => 0xFF07,
            HwReg::If => 0xFF0F,
            HwReg::Nr10 => 0xFF10,
            HwReg::Nr11 => 0xFF11,
            HwReg::Nr12 => 0xFF12,
            HwReg::Nr13 => 0xFF13,
            HwReg::Nr14 => 0xFF14,
            HwReg::Nr21 => 0xFF16,
            HwReg::Nr22 => 0xFF17,
            HwReg::Nr23 => 0xFF18,
            HwReg::Nr24 => 0xFF19,
            HwReg::Nr30 => 0xFF1A,
            HwReg::Nr31 => 0xFF1B,
            HwReg::Nr32 => 0xFF1C,
            HwReg::Nr33 => 0xFF1D,
            HwReg::Nr34 => 0xFF1E,
            HwReg::Nr41 => 0xFF20,
            HwReg::Nr42 => 0xFF21,
            HwReg::Nr43 => 0xFF22,
            HwReg::Nr44 => 0xFF23,
            HwReg::Nr50 => 0xFF24,
            HwReg::Nr51 => 0xFF25,
            HwReg::Nr52 => 0xFF26,
            HwReg::Wave0 => 0xFF30,
            HwReg::Wave1 => 0xFF31,
            HwReg::Wave2 => 0xFF32,
            HwReg::Wave3 => 0xFF33,
            HwReg::Wave4 => 0xFF34,
            HwReg::Wave5 => 0xFF35,
            HwReg::Wave6 => 0xFF36,
            HwReg::Wave7 => 0xFF37,
            HwReg::Wave8 => 0xFF38,
            HwReg::Wave9 => 0xFF39,
            HwReg::WaveA => 0xFF3A,
            HwReg::WaveB => 0xFF3B,
            HwReg::WaveC => 0xFF3C,
            HwReg::WaveD => 0xFF3D,
            HwReg::WaveE => 0xFF3E,
            HwReg::WaveF => 0xFF3F,
            HwReg::Lcdc => 0xFF40,
            HwReg::Stat => 0xFF41,
            HwReg::Scy => 0xFF42,
            HwReg::Scx => 0xFF43,
            HwReg::Ly => 0xFF44,
            HwReg::Lyc => 0xFF45,
            HwReg::Dma => 0xFF46,
            HwReg::Bgp => 0xFF47,
            HwReg::Obp0 => 0xFF48,
            HwReg::Obp1 => 0xFF49,
            HwReg::Wy => 0xFF4A,
            HwReg::Wx => 0xFF4B,
            HwReg::Key1 => 0xFF4D,
            HwReg::Vbk => 0xFF4F,
            HwReg::Hdma1 => 0xFF51,
            HwReg::Hdma2 => 0xFF52,
            HwReg::Hdma3 => 0xFF53,
            HwReg::Hdma4 => 0xFF54,
            HwReg::Hdma5 => 0xFF55,
            HwReg::Rp => 0xFF56,
            HwReg::Bcps => 0xFF68,
            HwReg::Bcpd => 0xFF69,
            HwReg::Ocps => 0xFF6A,
            HwReg::Ocpd => 0xFF6B,
            HwReg::Svbk => 0xFF70,
            HwReg::Pcm12 => 0xFF76,
            HwReg::Pcm34 => 0xFF77,
            HwReg::Ie => 0xFFFF,
        }
    }

    /// The position of the register in the table, counted from zero.
    pub open spec fn ordinal(self) -> usize {
        match self {
            HwReg::Ramg => 0,
            HwReg::Romb0 => 1,
            HwReg::Romb1 => 2,
            HwReg::Ramb => 3,
            HwReg::Rtclatch => 4,
            HwReg::P1 => 5,
            HwReg::Sb => 6,
            HwReg::Sc => 7,
            HwReg::Div => 8,
            HwReg::Tima => 9,
            HwReg::Tma => 10,
            HwReg::Tac => 11,
            HwReg::If => 12,
            HwReg::Nr10 => 13,
            HwReg::Nr11 => 14,
            HwReg::Nr12 => 15,
            HwReg::Nr13 => 16,
            HwReg::Nr14 => 17,
            HwReg::Nr21 => 18,
            HwReg::Nr22 => 19,
            HwReg::Nr23 => 20,
            HwReg::Nr24 => 21,
            HwReg::Nr30 => 22,
            HwReg::Nr31 => 23,
            HwReg::Nr32 => 24,
            HwReg::Nr33 => 25,
            HwReg::Nr34 => 26,
            HwReg::Nr41 => 27,
            HwReg::Nr42 => 28,
            HwReg::Nr43 => 29,
            HwReg::Nr44 => 30,
            HwReg::Nr50 => 31,
            HwReg::Nr51 => 32,
            HwReg::Nr52 => 33,
            HwReg::Wave0 => 34,
            HwReg::Wave1 => 35,
            HwReg::Wave2 => 36,
            HwReg::Wave3 => 37,
            HwReg::Wave4 => 38,
            HwReg::Wave5 => 39,
            HwReg::Wave6 => 40,
            HwReg::Wave7 => 41,
            HwReg::Wave8 => 42,
            HwReg::Wave9 => 43,
            HwReg::WaveA => 44,
            HwReg::WaveB => 45,
            HwReg::WaveC => 46,
            HwReg::WaveD => 47,
            HwReg::WaveE => 48,
            HwReg::WaveF => 49,
            HwReg::Lcdc => 50,
            HwReg::Stat => 51,
            HwReg::Scy => 52,
            HwReg::Scx => 53,
            HwReg::Ly => 54,
            HwReg::Lyc => 55,
            HwReg::Dma => 56,
            HwReg::Bgp => 57,
            HwReg::Obp0 => 58,
            HwReg::Obp1 => 59,
            HwReg::Wy => 60,
            HwReg::Wx => 61,
            HwReg::Key1 => 62,
            HwReg::Vbk => 63,
            HwReg::Hdma1 => 64,
            HwReg::Hdma2 => 65,
            HwReg::Hdma3 => 66,
            HwReg::Hdma4 => 67,
            HwReg::Hdma5 => 68,
            HwReg::Rp => 69,
            HwReg::Bcps => 70,
            HwReg::Bcpd => 71,
            HwReg::Ocps => 72,
            HwReg::Ocpd => 73,
            HwReg::Svbk => 74,
            HwReg::Pcm12 => 75,
            HwReg::Pcm34 => 76,
            HwReg::Ie => 77,
        }
    }

    /// The outside input that the register stands for, if it stands for one.
    pub open spec fn input_source(self) -> Option<InputSource> {
        match self {
            HwReg::P1 => Some(InputSource::Joypad),
            HwReg::Sb => Some(InputSource::Serial),
            _ => None,
        }
    }
}

impl InputSource {
    /// The words of the notice that a read owes while nothing feeds this input.
    pub open spec fn notice_text(self) -> Seq<char> {
        match self {
            InputSource::Joypad => "Unit test has no joypad input"@,
            InputSource::Serial => "Unit test has no serial input"@,
        }
    }

    /// The notice that a read owes while nothing feeds this input.
    pub fn notice(self) -> (text: &'static str)
        ensures
            text@ == self.notice_text(),
    {
        match self {
            InputSource::Joypad => "Unit test has no joypad input",
            InputSource::Serial => "Unit test has no serial input",
        }
    }
}

/// Whether some register answers to `address`.
pub open spec fn is_mapped(address: u16) -> bool {
    exists|register: HwReg| register.address() == address
}

/// What resolving `address` gives: the register that answers to it, or the
/// failure that carries the address back.
pub open spec fn resolve(address: u16) -> Result<HwReg, UnknownAddress> {
    match address {
        0x0000 => Ok(HwReg::Ramg),
        0x2000 => Ok(HwReg::Romb0),
        0x3000 => Ok(HwReg::Romb1),
        0x4000 => Ok(HwReg::Ramb),
        0x6000 => Ok(HwReg::Rtclatch),
        0xFF00 => Ok(HwReg::P1),
        0xFF01 => Ok(HwReg::Sb),
        0xFF02 => Ok(HwReg::Sc),
        0xFF04 => Ok(HwReg::Div),
        0xFF05 => Ok(HwReg::Tima),
        0xFF06 => Ok(HwReg::Tma),
        0xFF07 => Ok(HwReg::Tac),
        0xFF0F => Ok(HwReg::If),
        0xFF10 => Ok(HwReg::Nr10),
        0xFF11 => Ok(HwReg::Nr11),
        0xFF12 => Ok(HwReg::Nr12),
        0xFF13 => Ok(HwReg::Nr13),
        0xFF14 => Ok(HwReg::Nr14),
        0xFF16 => Ok(HwReg::Nr21),
        0xFF17 => Ok(HwReg::Nr22),
        0xFF18 => Ok(HwReg::Nr23),
        0xFF19 => Ok(HwReg::Nr24),
        0xFF1A => Ok(HwReg::Nr30),
        0xFF1B => Ok(HwReg::Nr31),
        0xFF1C => Ok(HwReg::Nr32),
        0xFF1D => Ok(HwReg::Nr33),
        0xFF1E => Ok(HwReg::Nr34),
        0xFF20 => Ok(HwReg::Nr41),
        0xFF21 => Ok(HwReg::Nr42),
        0xFF22 => Ok(HwReg::Nr43),
        0xFF23 => Ok(HwReg::Nr44),
        0xFF24 => Ok(HwReg::Nr50),
        0xFF25 => Ok(HwReg::Nr51),
        0xFF26 => Ok(HwReg::Nr52),
        0xFF30 => Ok(HwReg::Wave0),
        0xFF31 => Ok(HwReg::Wave1),
        0xFF32 => Ok(HwReg::Wave2),
        0xFF33 => Ok(HwReg::Wave3),
        0xFF34 => Ok(HwReg::Wave4),
        0xFF35 => Ok(HwReg::Wave5),
        0xFF36 => Ok(HwReg::Wave6),
        0xFF37 => Ok(HwReg::Wave7),
        0xFF38 => Ok(HwReg::Wave8),
        0xFF39 => Ok(HwReg::Wave9),
        0xFF3A => Ok(HwReg::WaveA),
        0xFF3B => Ok(HwReg::WaveB),
        0xFF3C => Ok(HwReg::WaveC),
        0xFF3D => Ok(HwReg::WaveD),
        0xFF3E => Ok(HwReg::WaveE),
        0xFF3F => Ok(HwReg::WaveF),
        0xFF40 => Ok(HwReg::Lcdc),
        0xFF41 => Ok(HwReg::Stat),
        0xFF42 => Ok(HwReg::Scy),
        0xFF43 => Ok(HwReg::Scx),
        0xFF44 => Ok(HwReg::Ly),
        0xFF45 => Ok(HwReg::Lyc),
        0xFF46 => Ok(HwReg::Dma),
        0xFF47 => Ok(HwReg::Bgp),
        0xFF48 => Ok(HwReg::Obp0),
        0xFF49 => Ok(HwReg::Obp1),
        0xFF4A => Ok(HwReg::Wy),
        0xFF4B => Ok(HwReg::Wx),
        0xFF4D => Ok(HwReg::Key1),
        0xFF4F => Ok(HwReg::Vbk),
        0xFF51 => Ok(HwReg::Hdma1),
        0xFF52 => Ok(HwReg::Hdma2),
        0xFF53 => Ok(HwReg::Hdma3),
        0xFF54 => Ok(HwReg::Hdma4),
        0xFF55 => Ok(HwReg::Hdma5),
        0xFF56 => Ok(HwReg::Rp),
        0xFF68 => Ok(HwReg::Bcps),
        0xFF69 => Ok(HwReg::Bcpd),
        0xFF6A => Ok(HwReg::Ocps),
        0xFF6B => Ok(HwReg::Ocpd),
        0xFF70 => Ok(HwReg::Svbk),
        0xFF76 => Ok(HwReg::Pcm12),
        0xFF77 => Ok(HwReg::Pcm34),
        0xFFFF => Ok(HwReg::Ie),
        _ => Err(UnknownAddress { address }),
    }
}

/// The bus address of `register`.
pub fn address_of(register: HwReg) -> (address: u16)
    ensures
        address == register.address(),
{
    match register {
        HwReg::Ramg => 0x0000,
        HwReg::Romb0 => 0x2000,
        HwReg::Romb1 => 0x3000,
        HwReg::Ramb => 0x4000,
        HwReg::Rtclatch => 0x6000,
        HwReg::P1 => 0xFF00,
        HwReg::Sb => 0xFF01,
        HwReg::Sc => 0xFF02,
        HwReg::Div => 0xFF04,
        HwReg::Tima => 0xFF05,
        HwReg::Tma => 0xFF06,
        HwReg::Tac => 0xFF07,
        HwReg::If => 0xFF0F,
        HwReg::Nr10 => 0xFF10,
        HwReg::Nr11 => 0xFF11,
        HwReg::Nr12 => 0xFF12,
        HwReg::Nr13 => 0xFF13,
        HwReg::Nr14 => 0xFF14,
        HwReg::Nr21 => 0xFF16,
        HwReg::Nr22 => 0xFF17,
        HwReg::Nr23 => 0xFF18,
        HwReg::Nr24 => 0xFF19,
        HwReg::Nr30 => 0xFF1A,
        HwReg::Nr31 => 0xFF1B,
        HwReg::Nr32 => 0xFF1C,
        HwReg::Nr33 => 0xFF1D,
        HwReg::Nr34 => 0xFF1E,
        HwReg::Nr41 => 0xFF20,
        HwReg::Nr42 => 0xFF21,
        HwReg::Nr43 => 0xFF22,
        HwReg::Nr44 => 0xFF23,
        HwReg::Nr50 => 0xFF24,
        HwReg::Nr51 => 0xFF25,
        HwReg::Nr52 => 0xFF26,
        HwReg::Wave0 => 0xFF30,
        HwReg::Wave1 => 0xFF31,
        HwReg::Wave2 => 0xFF32,
        HwReg::Wave3 => 0xFF33,
        HwReg::Wave4 => 0xFF34,
        HwReg::Wave5 => 0xFF35,
        HwReg::Wave6 => 0xFF36,
        HwReg::Wave7 => 0xFF37,
        HwReg::Wave8 => 0xFF38,
        HwReg::Wave9 => 0xFF39,
        HwReg::WaveA => 0xFF3A,
        HwReg::WaveB => 0xFF3B,
        HwReg::WaveC => 0xFF3C,
        HwReg::WaveD => 0xFF3D,
        HwReg::WaveE => 0xFF3E,
        HwReg::WaveF => 0xFF3F,
        HwReg::Lcdc => 0xFF40,
        HwReg::Stat => 0xFF41,
        HwReg::Scy => 0xFF42,
        HwReg::Scx => 0xFF43,
        HwReg::Ly => 0xFF44,
        HwReg::Lyc => 0xFF45,
        HwReg::Dma => 0xFF46,
        HwReg::Bgp => 0xFF47,
        HwReg::Obp0 => 0xFF48,
        HwReg::Obp1 => 0xFF49,
        HwReg::Wy => 0xFF4A,
        HwReg::Wx => 0xFF4B,
        HwReg::Key1 => 0xFF4D,
        HwReg::Vbk => 0xFF4F,
        HwReg::Hdma1 => 0xFF51,
        HwReg::Hdma2 => 0xFF52,
        HwReg::Hdma3 => 0xFF53,
        HwReg::Hdma4 => 0xFF54,
        HwReg::Hdma5 => 0xFF55,
        HwReg::Rp => 0xFF56,
        HwReg::Bcps => 0xFF68,
        HwReg::Bcpd => 0xFF69,
        HwReg::Ocps => 0xFF6A,
        HwReg::Ocpd => 0xFF6B,
        HwReg::Svbk => 0xFF70,
        HwReg::Pcm12 => 0xFF76,
        HwReg::Pcm34 => 0xFF77,
        HwReg::Ie => 0xFFFF,
    }
}

/// The register that answers to `address`. An address that no register
/// answers to is refused, and the refusal carries it back.
pub fn identity_of(address: u16) -> (result: Result<HwReg, UnknownAddress>)
    ensures
        result == resolve(address),
        result is Ok <==> is_mapped(address),
        result matches Ok(register) ==> register.address() == address,
        result matches Err(unknown) ==> unknown.address == address,
{
    proof {
        resolve_fails_iff_unmapped(address);
    }
    match address {
        0x0000 => Ok(HwReg::Ramg),
        0x2000 => Ok(HwReg::Romb0),
        0x3000 => Ok(HwReg::Romb1),
        0x4000 => Ok(HwReg::Ramb),
        0x6000 => Ok(HwReg::Rtclatch),
        0xFF00 => Ok(HwReg::P1),
        0xFF01 => Ok(HwReg::Sb),
        0xFF02 => Ok(HwReg::Sc),
        0xFF04 => Ok(HwReg::Div),
        0xFF05 => Ok(HwReg::Tima),
        0xFF06 => Ok(HwReg::Tma),
        0xFF07 => Ok(HwReg::Tac),
        0xFF0F => Ok(HwReg::If),
        0xFF10 => Ok(HwReg::Nr10),
        0xFF11 => Ok(HwReg::Nr11),
        0xFF12 => Ok(HwReg::Nr12),
        0xFF13 => Ok(HwReg::Nr13),
        0xFF14 => Ok(HwReg::Nr14),
        0xFF16 => Ok(HwReg::Nr21),
        0xFF17 => Ok(HwReg::Nr22),
        0xFF18 => Ok(HwReg::Nr23),
        0xFF19 => Ok(HwReg::Nr24),
        0xFF1A => Ok(HwReg::Nr30),
        0xFF1B => Ok(HwReg::Nr31),
        0xFF1C => Ok(HwReg::Nr32),
        0xFF1D => Ok(HwReg::Nr33),
        0xFF1E => Ok(HwReg::Nr34),
        0xFF20 => Ok(HwReg::Nr41),
        0xFF21 => Ok(HwReg::Nr42),
        0xFF22 => Ok(HwReg::Nr43),
        0xFF23 => Ok(HwReg::Nr44),
        0xFF24 => Ok(HwReg::Nr50),
        0xFF25 => Ok(HwReg::Nr51),
        0xFF26 => Ok(HwReg::Nr52),
        0xFF30 => Ok(HwReg::Wave0),
        0xFF31 => Ok(HwReg::Wave1),
        0xFF32 => Ok(HwReg::Wave2),
        0xFF33 => Ok(HwReg::Wave3),
        0xFF34 => Ok(HwReg::Wave4),
        0xFF35 => Ok(HwReg::Wave5),
        0xFF36 => Ok(HwReg::Wave6),
        0xFF37 => Ok(HwReg::Wave7),
        0xFF38 => Ok(HwReg::Wave8),
        0xFF39 => Ok(HwReg::Wave9),
        0xFF3A => Ok(HwReg::WaveA),
        0xFF3B => Ok(HwReg::WaveB),
        0xFF3C => Ok(HwReg::WaveC),
        0xFF3D => Ok(HwReg::WaveD),
        0xFF3E => Ok(HwReg::WaveE),
        0xFF3F => Ok(HwReg::WaveF),
        0xFF40 => Ok(HwReg::Lcdc),
        0xFF41 => Ok(HwReg::Stat),
        0xFF42 => Ok(HwReg::Scy),
        0xFF43 => Ok(HwReg::Scx),
        0xFF44 => Ok(HwReg::Ly),
        0xFF45 => Ok(HwReg::Lyc),
        0xFF46 => Ok(HwReg::Dma),
        0xFF47 => Ok(HwReg::Bgp),
        0xFF48 => Ok(HwReg::Obp0),
        0xFF49 => Ok(HwReg::Obp1),
        0xFF4A => Ok(HwReg::Wy),
        0xFF4B => Ok(HwReg::Wx),
        0xFF4D => Ok(HwReg::Key1),
        0xFF4F => Ok(HwReg::Vbk),
        0xFF51 => Ok(HwReg::Hdma1),
        0xFF52 => Ok(HwReg::Hdma2),
        0xFF53 => Ok(HwReg::Hdma3),
        0xFF54 => Ok(HwReg::Hdma4),
        0xFF55 => Ok(HwReg::Hdma5),
        0xFF56 => Ok(HwReg::Rp),
        0xFF68 => Ok(HwReg::Bcps),
        0xFF69 => Ok(HwReg::Bcpd),
        0xFF6A => Ok(HwReg::Ocps),
        0xFF6B => Ok(HwReg::Ocpd),
        0xFF70 => Ok(HwReg::Svbk),
        0xFF76 => Ok(HwReg::Pcm12),
        0xFF77 => Ok(HwReg::Pcm34),
        0xFFFF => Ok(HwReg::Ie),
        _ => Err(UnknownAddress { address }),
    }
}

/// The position of `register` in the table, below [`REGISTER_COUNT`].
pub fn ordinal_of(register: HwReg) -> (ordinal: usize)
    ensures
        ordinal == register.ordinal(),
        ordinal < REGISTER_COUNT,
{
    match register {
        HwReg::Ramg => 0,
        HwReg::Romb0 => 1,
        HwReg::Romb1 => 2,
        HwReg::Ramb => 3,
        HwReg::Rtclatch => 4,
        HwReg::P1 => 5,
        HwReg::Sb => 6,
        HwReg::Sc => 7,
        HwReg::Div => 8,
        HwReg::Tima => 9,
        HwReg::Tma => 10,
        HwReg::Tac => 11,
        HwReg::If => 12,
        HwReg::Nr10 => 13,
        HwReg::Nr11 => 14,
        HwReg::Nr12 => 15,
        HwReg::Nr13 => 16,
        HwReg::Nr14 => 17,
        HwReg::Nr21 => 18,
        HwReg::Nr22 => 19,
        HwReg::Nr23 => 20,
        HwReg::Nr24 => 21,
        HwReg::Nr30 => 22,
        HwReg::Nr31 => 23,
        HwReg::Nr32 => 24,
        HwReg::Nr33 => 25,
        HwReg::Nr34 => 26,
        HwReg::Nr41 => 27,
        HwReg::Nr42 => 28,
        HwReg::Nr43 => 29,
        HwReg::Nr44 => 30,
        HwReg::Nr50 => 31,
        HwReg::Nr51 => 32,
        HwReg::Nr52 => 33,
        HwReg::Wave0 => 34,
        HwReg::Wave1 => 35,
        HwReg::Wave2 => 36,
        HwReg::Wave3 => 37,
        HwReg::Wave4 => 38,
        HwReg::Wave5 => 39,
        HwReg::Wave6 => 40,
        HwReg::Wave7 => 41,
        HwReg::Wave8 => 42,
        HwReg::Wave9 => 43,
        HwReg::WaveA => 44,
        HwReg::WaveB => 45,
        HwReg::WaveC => 46,
        HwReg::WaveD => 47,
        HwReg::WaveE => 48,
        HwReg::WaveF => 49,
        HwReg::Lcdc => 50,
        HwReg::Stat => 51,
        HwReg::Scy => 52,
        HwReg::Scx => 53,
        HwReg::Ly => 54,
        HwReg::Lyc => 55,
        HwReg::Dma => 56,
        HwReg::Bgp => 57,
        HwReg::Obp0 => 58,
        HwReg::Obp1 => 59,
        HwReg::Wy => 60,
        HwReg::Wx => 61,
        HwReg::Key1 => 62,
        HwReg::Vbk => 63,
        HwReg::Hdma1 => 64,
        HwReg::Hdma2 => 65,
        HwReg::Hdma3 => 66,
        HwReg::Hdma4 => 67,
        HwReg::Hdma5 => 68,
        HwReg::Rp => 69,
        HwReg::Bcps => 70,
        HwReg::Bcpd => 71,
        HwReg::Ocps => 72,
        HwReg::Ocpd => 73,
        HwReg::Svbk => 74,
        HwReg::Pcm12 => 75,
        HwReg::Pcm34 => 76,
        HwReg::Ie => 77,
    }
}

/// The outside input that `register` stands for, if it stands for one.
pub fn input_source_of(register: HwReg) -> (source: Option<InputSource>)
    ensures
        source == register.input_source(),
{
    match register {
        HwReg::P1 => Some(InputSource::Joypad),
        HwReg::Sb => Some(InputSource::Serial),
        _ => None,
    }
}

impl From<HwReg> for u16 {
    fn from(register: HwReg) -> (address: u16) {
        address_of(register)
    }
}

impl FromSpecImpl<HwReg> for u16 {
    open spec fn obeys_from_spec() -> bool {
        true
    }

    open spec fn from_spec(register: HwReg) -> u16 {
        register.address()
    }
}

impl TryFrom<u16> for HwReg {
    type Error = UnknownAddress;

    fn try_from(address: u16) -> (result: Result<HwReg, UnknownAddress>) {
        identity_of(address)
    }
}

impl TryFromSpecImpl<u16> for HwReg {
    open spec fn obeys_try_from_spec() -> bool {
        true
    }

    open spec fn try_from_spec(address: u16) -> Result<HwReg, UnknownAddress> {
        resolve(address)
    }
}

/// No two registers share an address.
pub proof fn address_is_injective(a: HwReg, b: HwReg)
    ensures
        a.address() == b.address() <==> a == b,
{
}

/// Resolving the address of a register gives that register back.
pub proof fn resolve_of_address(register: HwReg)
    ensures
        is_mapped(register.address()),
        resolve(register.address()) == Ok::<HwReg, UnknownAddress>(register),
{
}

/// Where an address is mapped, resolving it succeeds, and the register that
/// comes out has that address.
pub proof fn address_of_resolved(address: u16)
    requires
        is_mapped(address),
    ensures
        resolve(address) matches Ok(register) && register.address() == address,
{
}

/// Resolving fails exactly on the addresses that no register answers to, and
/// the failure names the address.
pub proof fn resolve_fails_iff_unmapped(address: u16)
    ensures
        resolve(address) is Err <==> !is_mapped(address),
        resolve(address) matches Err(unknown) ==> unknown.address == address,
{
    if let Ok(register) = resolve(address) {
        assert(register.address() == address);
    }
}

/// Every register has a position below [`REGISTER_COUNT`], and no two
/// registers share one.
pub proof fn ordinal_is_injective(a: HwReg, b: HwReg)
    ensures
        a.ordinal() < REGISTER_COUNT,
        a.ordinal() == b.ordinal() <==> a == b,
{
}

/// Every position below [`REGISTER_COUNT`] belongs to a register.
pub proof fn ordinal_is_onto(position: usize)
    requires
        position < REGISTER_COUNT,
    ensures
        exists|register: HwReg| register.ordinal() == position,
{
    assert(HwReg::Ramg.ordinal() == 0);
    assert(HwReg::Romb0.ordinal() == 1);
    assert(HwReg::Romb1.ordinal() == 2);
    assert(HwReg::Ramb.ordinal() == 3);
    assert(HwReg::Rtclatch.ordinal() == 4);
    assert(HwReg::P1.ordinal() == 5);
    assert(HwReg::Sb.ordinal() == 6);
    assert(HwReg::Sc.ordinal() == 7);
    assert(HwReg::Div.ordinal() == 8);
    assert(HwReg::Tima.ordinal() == 9);
    assert(HwReg::Tma.ordinal() == 10);
    assert(HwReg::Tac.ordinal() == 11);
    assert(HwReg::If.ordinal() == 12);
    assert(HwReg::Nr10.ordinal() == 13);
    assert(HwReg::Nr11.ordinal() == 14);
    assert(HwReg::Nr12.ordinal() == 15);
    assert(HwReg::Nr13.ordinal() == 16);
    assert(HwReg::Nr14.ordinal() == 17);
    assert(HwReg::Nr21.ordinal() == 18);
    assert(HwReg::Nr22.ordinal() == 19);
    assert(HwReg::Nr23.ordinal() == 20);
    assert(HwReg::Nr24.ordinal() == 21);
    assert(HwReg::Nr30.ordinal() == 22);
    assert(HwReg::Nr31.ordinal() == 23);
    assert(HwReg::Nr32.ordinal() == 24);
    assert(HwReg::Nr33.ordinal() == 25);
    assert(HwReg::Nr34.ordinal() == 26);
    assert(HwReg::Nr41.ordinal() == 27);
    assert(HwReg::Nr42.ordinal() == 28);
    assert(HwReg::Nr43.ordinal() == 29);
    assert(HwReg::Nr44.ordinal() == 30);
    assert(HwReg::Nr50.ordinal() == 31);
    assert(HwReg::Nr51.ordinal() == 32);
    assert(HwReg::Nr52.ordinal() == 33);
    assert(HwReg::Wave0.ordinal() == 34);
    assert(HwReg::Wave1.ordinal() == 35);
    assert(HwReg::Wave2.ordinal() == 36);
    assert(HwReg::Wave3.ordinal() == 37);
    assert(HwReg::Wave4.ordinal() == 38);
    assert(HwReg::Wave5.ordinal() == 39);
    assert(HwReg::Wave6.ordinal() == 40);
    assert(HwReg::Wave7.ordinal() == 41);
    assert(HwReg::Wave8.ordinal() == 42);
    assert(HwReg::Wave9.ordinal() == 43);
    assert(HwReg::WaveA.ordinal() == 44);
    assert(HwReg::WaveB.ordinal() == 45);
    assert(HwReg::WaveC.ordinal() == 46);
    assert(HwReg::WaveD.ordinal() == 47);
    assert(HwReg::WaveE.ordinal() == 48);
    assert(HwReg::WaveF.ordinal() == 49);
    assert(HwReg::Lcdc.ordinal() == 50);
    assert(HwReg::Stat.ordinal() == 51);
    assert(HwReg::Scy.ordinal() == 52);
    assert(HwReg::Scx.ordinal() == 53);
    assert(HwReg::Ly.ordinal() == 54);
    assert(HwReg::Lyc.ordinal() == 55);
    assert(HwReg::Dma.ordinal() == 56);
    assert(HwReg::Bgp.ordinal() == 57);
    assert(HwReg::Obp0.ordinal() == 58);
    assert(HwReg::Obp1.ordinal() == 59);
    assert(HwReg::Wy.ordinal() == 60);
    assert(HwReg::Wx.ordinal() == 61);
    assert(HwReg::Key1.ordinal() == 62);
    assert(HwReg::Vbk.ordinal() == 63);
    assert(HwReg::Hdma1.ordinal() == 64);
    assert(HwReg::Hdma2.ordinal() == 65);
    assert(HwReg::Hdma3.ordinal() == 66);
    assert(HwReg::Hdma4.ordinal() == 67);
    assert(HwReg::Hdma5.ordinal() == 68);
    assert(HwReg::Rp.ordinal() == 69);
    assert(HwReg::Bcps.ordinal() == 70);
    assert(HwReg::Bcpd.ordinal() == 71);
    assert(HwReg::Ocps.ordinal() == 72);
    assert(HwReg::Ocpd.ordinal() == 73);
    assert(HwReg::Svbk.ordinal() == 74);
    assert(HwReg::Pcm12.ordinal() == 75);
    assert(HwReg::Pcm34.ordinal() == 76);
    assert(HwReg::Ie.ordinal() == 77);
}

} // verus!
