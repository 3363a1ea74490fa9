use gb_mmio::mmio::Mmio;
use gb_mmio::reg::{identity_of, HwReg, InputSource, UnknownAddress};

/// Every register, by way of the addresses that resolve.
fn every_register() -> Vec<HwReg> {
    (0..=u16::MAX).filter_map(|address| identity_of(address).ok()).collect()
}

#[test]
fn every_register_is_reached_by_an_address() {
    assert_eq!(every_register().len(), 78);
}

#[test]
fn new_file_reads_zero_everywhere() {
    let mmio = Mmio::new();
    for register in every_register() {
        assert_eq!(mmio.read(register), 0x00);
    }
}

#[test]
fn default_file_reads_zero_everywhere() {
    let mmio = Mmio::default();
    for register in every_register() {
        assert_eq!(mmio.read(register), 0x00);
    }
}

#[test]
fn write_then_read_gives_the_byte_back() {
    for register in every_register() {
        for value in [0x00u8, 0x01, 0x7F, 0x80, 0x91, 0xFF] {
            let mut mmio = Mmio::new();
            mmio.write(register, value);
            assert_eq!(mmio.read(register), value);
        }
    }
}

#[test]
fn every_byte_is_stored_unmasked() {
    let mut mmio = Mmio::new();
    for value in 0..=u8::MAX {
        mmio.write(HwReg::Stat, value);
        assert_eq!(mmio.read(HwReg::Stat), value);
    }
}

#[test]
fn write_leaves_every_other_register_alone() {
    let registers = every_register();
    for (i, written) in registers.iter().enumerate() {
        let mut mmio = Mmio::new();
        for (j, register) in registers.iter().enumerate() {
            mmio.write(*register, j as u8 + 1);
        }
        mmio.write(*written, 0xEE);
        for (j, register) in registers.iter().enumerate() {
            let expected = if i == j { 0xEE } else { j as u8 + 1 };
            assert_eq!(mmio.read(*register), expected);
        }
    }
}

#[test]
fn later_write_replaces_the_earlier() {
    let mut mmio = Mmio::new();
    mmio.write(HwReg::Tima, 0x12);
    mmio.write(HwReg::Tima, 0x34);
    assert_eq!(mmio.read(HwReg::Tima), 0x34);
}

#[test]
fn read_changes_nothing() {
    let mut mmio = Mmio::new();
    mmio.write(HwReg::Scx, 0x42);
    assert_eq!(mmio.read(HwReg::Scx), 0x42);
    assert_eq!(mmio.read(HwReg::Scx), 0x42);
    assert_eq!(mmio.read(HwReg::Scy), 0x00);
}

#[test]
fn wave_pattern_bytes_are_cells_of_their_own() {
    let wave = [
        HwReg::Wave0, HwReg::Wave1, HwReg::Wave2, HwReg::Wave3, HwReg::Wave4, HwReg::Wave5,
        HwReg::Wave6, HwReg::Wave7, HwReg::Wave8, HwReg::Wave9, HwReg::WaveA, HwReg::WaveB,
        HwReg::WaveC, HwReg::WaveD, HwReg::WaveE, HwReg::WaveF,
    ];
    let mut mmio = Mmio::new();
    for (i, register) in wave.iter().enumerate() {
        mmio.write(*register, 0xF0 + i as u8);
    }
    for (i, register) in wave.iter().enumerate() {
        assert_eq!(mmio.read(*register), 0xF0 + i as u8);
    }
}

#[test]
fn bank_switch_write_is_only_stored() {
    let mut mmio = Mmio::new();
    mmio.write(HwReg::Romb0, 0x05);
    assert_eq!(mmio.read(HwReg::Romb0), 0x05);
    assert_eq!(mmio.read(HwReg::Romb1), 0x00);
    assert_eq!(mmio.read(HwReg::Ramb), 0x00);
    assert_eq!(mmio.read(HwReg::Ramg), 0x00);
}

#[test]
fn joypad_read_gives_the_stored_byte_and_a_notice() {
    let mut mmio = Mmio::new();
    assert_eq!(mmio.read_with_notice(HwReg::P1), (0x00, Some(InputSource::Joypad)));
    mmio.write(HwReg::P1, 0x2F);
    assert_eq!(mmio.read(HwReg::P1), 0x2F);
    assert_eq!(mmio.read_with_notice(HwReg::P1), (0x2F, Some(InputSource::Joypad)));
}

#[test]
fn serial_data_read_gives_the_stored_byte_and_a_notice() {
    let mut mmio = Mmio::new();
    mmio.write(HwReg::Sb, 0xA5);
    assert_eq!(mmio.read(HwReg::Sb), 0xA5);
    assert_eq!(mmio.read_with_notice(HwReg::Sb), (0xA5, Some(InputSource::Serial)));
}

#[test]
fn other_reads_owe_no_notice() {
    let mut mmio = Mmio::new();
    mmio.write(HwReg::Sc, 0x81);
    assert_eq!(mmio.read_with_notice(HwReg::Sc), (0x81, None));
    for register in every_register() {
        let (value, notice) = mmio.read_with_notice(register);
        assert_eq!(value, mmio.read(register));
        assert_eq!(notice.is_some(), register == HwReg::P1 || register == HwReg::Sb);
    }
}

#[test]
fn fresh_file_scenario() {
    let mut mmio = Mmio::new();
    mmio.write(HwReg::Lcdc, 0x91);
    assert_eq!(mmio.read(HwReg::Lcdc), 0x91);
    mmio.write(HwReg::Ie, 0x00);
    assert_eq!(mmio.read(HwReg::Ie), 0x00);
    assert_eq!(identity_of(0xFF02), Ok(HwReg::Sc));
    assert_eq!(identity_of(0x8000), Err(UnknownAddress { address: 0x8000 }));
}

#[test]
fn write_by_resolved_address() {
    let mut mmio = Mmio::new();
    let register = identity_of(0xFF47).unwrap();
    mmio.write(register, 0xE4);
    assert_eq!(mmio.read(HwReg::Bgp), 0xE4);
}
