use gb_mmio::reg::{
    address_of, identity_of, input_source_of, ordinal_of, HwReg, InputSource, UnknownAddress,
    REGISTER_COUNT,
};

/// Every register beside the address that the hardware gives it.
fn table() -> Vec<(HwReg, u16)> {
    vec![
        (HwReg::Ramg, 0x0000),
        (HwReg::Romb0, 0x2000),
        (HwReg::Romb1, 0x3000),
        (HwReg::Ramb, 0x4000),
        (HwReg::Rtclatch, 0x6000),
        (HwReg::P1, 0xFF00),
        (HwReg::Sb, 0xFF01),
        (HwReg::Sc, 0xFF02),
        (HwReg::Div, 0xFF04),
        (HwReg::Tima, 0xFF05),
        (HwReg::Tma, 0xFF06),
        (HwReg::Tac, 0xFF07),
        (HwReg::If, 0xFF0F),
        (HwReg::Nr10, 0xFF10),
        (HwReg::Nr11, 0xFF11),
        (HwReg::Nr12, 0xFF12),
        (HwReg::Nr13, 0xFF13),
        (HwReg::Nr14, 0xFF14),
        (HwReg::Nr21, 0xFF16),
        (HwReg::Nr22, 0xFF17),
        (HwReg::Nr23, 0xFF18),
        (HwReg::Nr24, 0xFF19),
        (HwReg::Nr30, 0xFF1A),
        (HwReg::Nr31, 0xFF1B),
        (HwReg::Nr32, 0xFF1C),
        (HwReg::Nr33, 0xFF1D),
        (HwReg::Nr34, 0xFF1E),
        (HwReg::Nr41, 0xFF20),
        (HwReg::Nr42, 0xFF21),
        (HwReg::Nr43, 0xFF22),
        (HwReg::Nr44, 0xFF23),
        (HwReg::Nr50, 0xFF24),
        (HwReg::Nr51, 0xFF25),
        (HwReg::Nr52, 0xFF26),
        (HwReg::Wave0, 0xFF30),
        (HwReg::Wave1, 0xFF31),
        (HwReg::Wave2, 0xFF32),
        (HwReg::Wave3, 0xFF33),
        (HwReg::Wave4, 0xFF34),
        (HwReg::Wave5, 0xFF35),
        (HwReg::Wave6, 0xFF36),
        (HwReg::Wave7, 0xFF37),
        (HwReg::Wave8, 0xFF38),
        (HwReg::Wave9, 0xFF39),
        (HwReg::WaveA, 0xFF3A),
        (HwReg::WaveB, 0xFF3B),
        (HwReg::WaveC, 0xFF3C),
        (HwReg::WaveD, 0xFF3D),
        (HwReg::WaveE, 0xFF3E),
        (HwReg::WaveF, 0xFF3F),
        (HwReg::Lcdc, 0xFF40),
        (HwReg::Stat, 0xFF41),
        (HwReg::Scy, 0xFF42),
        (HwReg::Scx, 0xFF43),
        (HwReg::Ly, 0xFF44),
        (HwReg::Lyc, 0xFF45),
        (HwReg::Dma, 0xFF46),
        (HwReg::Bgp, 0xFF47),
        (HwReg::Obp0, 0xFF48),
        (HwReg::Obp1, 0xFF49),
        (HwReg::Wy, 0xFF4A),
        (HwReg::Wx, 0xFF4B),
        (HwReg::Key1, 0xFF4D),
        (HwReg::Vbk, 0xFF4F),
        (HwReg::Hdma1, 0xFF51),
        (HwReg::Hdma2, 0xFF52),
        (HwReg::Hdma3, 0xFF53),
        (HwReg::Hdma4, 0xFF54),
        (HwReg::Hdma5, 0xFF55),
        (HwReg::Rp, 0xFF56),
        (HwReg::Bcps, 0xFF68),
        (HwReg::Bcpd, 0xFF69),
        (HwReg::Ocps, 0xFF6A),
        (HwReg::Ocpd, 0xFF6B),
        (HwReg::Svbk, 0xFF70),
        (HwReg::Pcm12, 0xFF76),
        (HwReg::Pcm34, 0xFF77),
        (HwReg::Ie, 0xFFFF),
    ]
}

#[test]
fn table_names_every_register() {
    assert_eq!(table().len(), REGISTER_COUNT);
    assert_eq!(REGISTER_COUNT, 78);
}

#[test]
fn address_of_gives_the_tabled_address() {
    for (register, address) in table() {
        assert_eq!(address_of(register), address);
        assert_eq!(u16::from(register), address);
    }
}

#[test]
fn identity_of_gives_the_tabled_register() {
    for (register, address) in table() {
        assert_eq!(identity_of(address), Ok(register));
        assert_eq!(HwReg::try_from(address), Ok(register));
    }
}

#[test]
fn address_round_trips_through_identity() {
    for address in 0..=u16::MAX {
        if let Ok(register) = identity_of(address) {
            assert_eq!(address_of(register), address);
        }
    }
}

#[test]
fn identity_round_trips_through_address() {
    for (register, _) in table() {
        assert_eq!(identity_of(address_of(register)), Ok(register));
    }
}

#[test]
fn exactly_the_tabled_addresses_resolve() {
    let tabled: Vec<u16> = table().iter().map(|row| row.1).collect();
    let mut resolved = 0;
    for address in 0..=u16::MAX {
        match identity_of(address) {
            Ok(_) => {
                assert!(tabled.contains(&address));
                resolved += 1;
            }
            Err(unknown) => {
                assert!(!tabled.contains(&address));
                assert_eq!(unknown, UnknownAddress { address });
            }
        }
    }
    assert_eq!(resolved, 78);
}

#[test]
fn no_two_registers_share_an_address() {
    let rows = table();
    for (i, (first, _)) in rows.iter().enumerate() {
        for (second, _) in rows.iter().skip(i + 1) {
            assert_ne!(first, second);
            assert_ne!(address_of(*first), address_of(*second));
        }
    }
}

#[test]
fn lcd_control_is_at_ff40() {
    assert_eq!(identity_of(0xFF40), Ok(HwReg::Lcdc));
    assert_eq!(address_of(HwReg::Lcdc), 0xFF40);
}

#[test]
fn serial_control_is_at_ff02() {
    assert_eq!(identity_of(0xFF02), Ok(HwReg::Sc));
}

#[test]
fn interrupt_enable_is_at_ffff() {
    assert_eq!(identity_of(0xFFFF), Ok(HwReg::Ie));
    assert_eq!(address_of(HwReg::Ie), 0xFFFF);
}

#[test]
fn bank_switch_lines_are_below_the_io_area() {
    assert_eq!(identity_of(0x0000), Ok(HwReg::Ramg));
    assert_eq!(identity_of(0x2000), Ok(HwReg::Romb0));
    assert_eq!(identity_of(0x3000), Ok(HwReg::Romb1));
    assert_eq!(identity_of(0x4000), Ok(HwReg::Ramb));
    assert_eq!(identity_of(0x6000), Ok(HwReg::Rtclatch));
}

#[test]
fn unmapped_address_1234_is_refused() {
    assert_eq!(identity_of(0x1234), Err(UnknownAddress { address: 0x1234 }));
}

#[test]
fn unmapped_address_8000_is_refused() {
    assert_eq!(identity_of(0x8000), Err(UnknownAddress { address: 0x8000 }));
    assert_eq!(HwReg::try_from(0x8000), Err(UnknownAddress { address: 0x8000 }));
}

#[test]
fn gaps_inside_the_io_area_are_refused() {
    for address in [0xFF03u16, 0xFF08, 0xFF0E, 0xFF15, 0xFF1F, 0xFF27, 0xFF2F, 0xFF4C, 0xFF4E,
        0xFF50, 0xFF57, 0xFF67, 0xFF6C, 0xFF6F, 0xFF71, 0xFF75, 0xFF78, 0xFFFE, 0x0001, 0x1FFF,
        0x2001, 0x5000, 0x7FFF]
    {
        assert_eq!(identity_of(address), Err(UnknownAddress { address }));
    }
}

#[test]
fn refusal_carries_the_address_back() {
    let unknown = identity_of(0xABCD).unwrap_err();
    assert_eq!(unknown.address, 0xABCD);
}

#[test]
fn into_u16_gives_the_address() {
    let address: u16 = HwReg::Wave7.into();
    assert_eq!(address, 0xFF37);
}

#[test]
fn try_into_gives_the_register() {
    let register: Result<HwReg, UnknownAddress> = 0xFF4Du16.try_into();
    assert_eq!(register, Ok(HwReg::Key1));
}

#[test]
fn ordinals_count_the_table_in_order() {
    for (position, (register, _)) in table().into_iter().enumerate() {
        assert_eq!(ordinal_of(register), position);
        assert!(ordinal_of(register) < REGISTER_COUNT);
    }
}

#[test]
fn first_and_last_ordinals() {
    assert_eq!(ordinal_of(HwReg::Ramg), 0);
    assert_eq!(ordinal_of(HwReg::Lcdc), 50);
    assert_eq!(ordinal_of(HwReg::Ie), 77);
}

#[test]
fn only_joypad_and_serial_data_stand_for_an_input() {
    for (register, _) in table() {
        let expected = if register == HwReg::P1 {
            Some(InputSource::Joypad)
        } else if register == HwReg::Sb {
            Some(InputSource::Serial)
        } else {
            None
        };
        assert_eq!(input_source_of(register), expected);
    }
}

#[test]
fn serial_control_stands_for_no_input() {
    assert_eq!(input_source_of(HwReg::Sc), None);
}

#[test]
fn notices_name_the_missing_input() {
    assert_eq!(InputSource::Joypad.notice(), "Unit test has no joypad input");
    assert_eq!(InputSource::Serial.notice(), "Unit test has no serial input");
}
