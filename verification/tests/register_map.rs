use h3lis200dl::reg::{
    CtrlReg1, DataRate, EncodingError, PowerMode, Register, RegisterEncoding, ADDR_PRIMARY,
    ADDR_SECONDARY, DEVICE_ID, I2C_SUB_MULTI,
};

fn power_modes() -> Vec<(PowerMode, u8)> {
    vec![
        (PowerMode::PowerDown, 0b0000_0000),
        (PowerMode::NormalMode, 0b0010_0000),
        (PowerMode::HzHalf, 0b0100_0000),
        (PowerMode::Hz1, 0b0110_0000),
        (PowerMode::Hz2, 0b1000_0000),
        (PowerMode::Hz5, 0b1010_0000),
        (PowerMode::Hz10, 0b1100_0000),
    ]
}

fn data_rates() -> Vec<(DataRate, u8, u32)> {
    vec![
        (DataRate::Odr50, 0b0000_0000, 37),
        (DataRate::Odr100, 0b0000_1000, 74),
        (DataRate::Odr400, 0b0001_0000, 292),
        (DataRate::Odr1000, 0b0001_1000, 780),
    ]
}

#[test]
fn constants_have_their_documented_values() {
    assert_eq!(ADDR_PRIMARY, 0b0011000);
    assert_eq!(ADDR_SECONDARY, 0b0011001);
    assert_eq!(I2C_SUB_MULTI, 0b1000_0000);
    assert_eq!(DEVICE_ID, 0b0011_0010);
}

#[test]
fn register_addresses_match_the_table() {
    let table = vec![
        (Register::WHO_AM_I, 0x0F),
        (Register::CTRL_REG1, 0x20),
        (Register::CTRL_REG2, 0x21),
        (Register::CTRL_REG3, 0x22),
        (Register::CTRL_REG4, 0x23),
        (Register::CTRL_REG5, 0x24),
        (Register::HP_FILTER_RESET, 0x25),
        (Register::REFERENCE, 0x26),
        (Register::STATUS_REG, 0x27),
        (Register::OUT_X, 0x29),
        (Register::OUT_Y, 0x2B),
        (Register::OUT_Z, 0x2D),
        (Register::INT1_CFG, 0x30),
        (Register::INT1_SRC, 0x31),
        (Register::INT1_THS, 0x32),
        (Register::INT1_DURATION, 0x33),
        (Register::INT2_CFG, 0x34),
        (Register::INT2_SRC, 0x35),
        (Register::INT2_THS, 0x36),
        (Register::INT2_DURATION, 0x37),
    ];
    for (register, address) in table.iter() {
        assert_eq!(register.addr(), *address, "{:?}", register);
    }
}

#[test]
fn register_addresses_are_distinct_and_below_the_multi_read_flag() {
    let registers = vec![
        Register::WHO_AM_I,
        Register::CTRL_REG1,
        Register::CTRL_REG2,
        Register::CTRL_REG3,
        Register::CTRL_REG4,
        Register::CTRL_REG5,
        Register::HP_FILTER_RESET,
        Register::REFERENCE,
        Register::STATUS_REG,
        Register::OUT_X,
        Register::OUT_Y,
        Register::OUT_Z,
        Register::INT1_CFG,
        Register::INT1_SRC,
        Register::INT1_THS,
        Register::INT1_DURATION,
        Register::INT2_CFG,
        Register::INT2_SRC,
        Register::INT2_THS,
        Register::INT2_DURATION,
    ];
    for (i, a) in registers.iter().enumerate() {
        assert!(a.addr() < I2C_SUB_MULTI);
        for b in registers.iter().skip(i + 1) {
            assert_ne!(a.addr(), b.addr(), "{:?} and {:?}", a, b);
        }
    }
}

#[test]
fn power_mode_bits_match_the_table() {
    for (mode, bits) in power_modes() {
        assert_eq!(mode.bits(), bits, "{:?}", mode);
        assert_eq!(PowerMode::from_bits(bits), Some(mode));
    }
}

#[test]
fn power_mode_round_trips_through_its_bits() {
    for (mode, _) in power_modes() {
        assert_eq!(PowerMode::from_bits(mode.bits()), Some(mode));
    }
}

#[test]
fn power_mode_is_bound_to_seven_patterns_only() {
    let mut bound: u32 = 0;
    for bits in 0..=255u8 {
        match PowerMode::from_bits(bits) {
            Some(mode) => {
                bound += 1;
                assert_eq!(mode.bits(), bits);
            }
            None => {}
        }
    }
    assert_eq!(bound, 7);
    assert_eq!(PowerMode::from_bits(0b1110_0000), None);
    assert_eq!(PowerMode::from_bits(0b0000_0001), None);
}

#[test]
fn data_rate_bits_match_the_table() {
    for (rate, bits, _) in data_rates() {
        assert_eq!(rate.bits(), bits, "{:?}", rate);
        assert_eq!(DataRate::from_bits(bits), Some(rate));
    }
}

#[test]
fn data_rate_round_trips_through_its_bits() {
    for (rate, _, _) in data_rates() {
        assert_eq!(DataRate::from_bits(rate.bits()), Some(rate));
    }
}

#[test]
fn data_rate_is_bound_to_four_patterns_only() {
    let mut bound: u32 = 0;
    for bits in 0..=255u8 {
        match DataRate::from_bits(bits) {
            Some(rate) => {
                bound += 1;
                assert_eq!(rate.bits(), bits);
            }
            None => {}
        }
    }
    assert_eq!(bound, 4);
    assert_eq!(DataRate::from_bits(0b0010_0000), None);
}

#[test]
fn data_rate_cutoff_frequencies() {
    for (rate, _, cutoff) in data_rates() {
        assert_eq!(rate.low_pass_filter_cutoff_frequency(), cutoff, "{:?}", rate);
    }
}

#[test]
fn ctrl_reg1_decodes_each_field() {
    let decoded = CtrlReg1::from_u8(0b0010_0111);
    assert_eq!(
        decoded,
        Ok(CtrlReg1 {
            power_mode: PowerMode::NormalMode,
            data_rate: DataRate::Odr50,
            x_axis_enabled: true,
            y_axis_enabled: true,
            z_axis_enabled: true,
        })
    );
    let decoded = CtrlReg1::from_u8(0b1101_0010);
    assert_eq!(
        decoded,
        Ok(CtrlReg1 {
            power_mode: PowerMode::Hz10,
            data_rate: DataRate::Odr400,
            x_axis_enabled: false,
            y_axis_enabled: true,
            z_axis_enabled: false,
        })
    );
    let decoded = CtrlReg1::from_u8(0);
    assert_eq!(
        decoded,
        Ok(CtrlReg1 {
            power_mode: PowerMode::PowerDown,
            data_rate: DataRate::Odr50,
            x_axis_enabled: false,
            y_axis_enabled: false,
            z_axis_enabled: false,
        })
    );
}

#[test]
fn ctrl_reg1_encodes_each_field() {
    let value = CtrlReg1 {
        power_mode: PowerMode::Hz10,
        data_rate: DataRate::Odr1000,
        x_axis_enabled: true,
        y_axis_enabled: false,
        z_axis_enabled: true,
    };
    assert_eq!(value.to_u8(), Ok(0b1101_1101));
    let value = CtrlReg1 {
        power_mode: PowerMode::NormalMode,
        data_rate: DataRate::Odr100,
        x_axis_enabled: false,
        y_axis_enabled: true,
        z_axis_enabled: false,
    };
    assert_eq!(value.to_u8(), Ok(0b0010_1010));
    let value = CtrlReg1 {
        power_mode: PowerMode::PowerDown,
        data_rate: DataRate::Odr50,
        x_axis_enabled: false,
        y_axis_enabled: false,
        z_axis_enabled: false,
    };
    assert_eq!(value.to_u8(), Ok(0));
}

#[test]
fn ctrl_reg1_value_round_trips_through_its_byte() {
    let mut seen: u32 = 0;
    for (power_mode, _) in power_modes() {
        for (data_rate, _, _) in data_rates() {
            for axes in 0..8u8 {
                let value = CtrlReg1 {
                    power_mode,
                    data_rate,
                    x_axis_enabled: axes & 1 != 0,
                    y_axis_enabled: axes & 2 != 0,
                    z_axis_enabled: axes & 4 != 0,
                };
                let byte = value.to_u8().unwrap();
                assert_eq!(CtrlReg1::from_u8(byte), Ok(value));
                seen += 1;
            }
        }
    }
    assert_eq!(seen, 224);
}

#[test]
fn ctrl_reg1_byte_round_trips_through_its_value() {
    for reading in 0..0b1110_0000u8 {
        let value = CtrlReg1::from_u8(reading).unwrap();
        assert_eq!(value.to_u8(), Ok(reading));
    }
}

#[test]
fn ctrl_reg1_axis_bits_round_trip_alone() {
    for axes in 0..8u8 {
        let reading = 0b0100_1000 | axes;
        let value = CtrlReg1::from_u8(reading).unwrap();
        assert_eq!(value.power_mode, PowerMode::HzHalf);
        assert_eq!(value.data_rate, DataRate::Odr100);
        assert_eq!(value.x_axis_enabled, axes & 0b001 != 0);
        assert_eq!(value.y_axis_enabled, axes & 0b010 != 0);
        assert_eq!(value.z_axis_enabled, axes & 0b100 != 0);
        assert_eq!(value.to_u8(), Ok(reading));
    }
}

#[test]
fn ctrl_reg1_rejects_the_unbound_power_mode_pattern() {
    for reading in 0b1110_0000..=0b1111_1111u8 {
        assert_eq!(
            CtrlReg1::from_u8(reading),
            Err(EncodingError::Unrepresented(0b1110_0000)),
            "{:#010b}",
            reading
        );
    }
    assert!(CtrlReg1::from_u8(0b1101_1111).is_ok());
}
