use bmp280::config::{Config, Filter, Standby};
use bmp280::control::{Control, Oversampling, PowerMode};
use bmp280::status::Status;

const OVERSAMPLINGS: [Oversampling; 6] = [
    Oversampling::skipped,
    Oversampling::x1,
    Oversampling::x2,
    Oversampling::x4,
    Oversampling::x8,
    Oversampling::x16,
];

const MODES: [PowerMode; 3] = [PowerMode::Sleep, PowerMode::Forced, PowerMode::Normal];

const STANDBYS: [Standby; 8] = [
    Standby::ms0_5,
    Standby::ms62_5,
    Standby::ms125,
    Standby::ms250,
    Standby::ms500,
    Standby::ms1000,
    Standby::ms2000,
    Standby::ms4000,
];

const FILTERS: [Filter; 6] =
    [Filter::off, Filter::c2, Filter::c4, Filter::c8, Filter::c16, Filter::unknown];

#[test]
fn oversampling_codes() {
    let codes: Vec<u8> = OVERSAMPLINGS.iter().map(|o| o.code()).collect();
    assert_eq!(codes, vec![0, 1, 2, 3, 4, 5]);
    for o in OVERSAMPLINGS {
        assert_eq!(Oversampling::from_code(o.code()), o);
    }
}

#[test]
fn oversampling_without_a_setting_reads_as_x16() {
    for bits in 5..=255u8 {
        assert_eq!(Oversampling::from_code(bits), Oversampling::x16);
    }
}

#[test]
fn power_mode_codes() {
    assert_eq!(PowerMode::Sleep.code(), 0b00);
    assert_eq!(PowerMode::Forced.code(), 0b01);
    assert_eq!(PowerMode::Normal.code(), 0b11);
    assert_eq!(PowerMode::from_code(0), PowerMode::Sleep);
    assert_eq!(PowerMode::from_code(1), PowerMode::Forced);
    assert_eq!(PowerMode::from_code(3), PowerMode::Normal);
}

#[test]
fn power_mode_without_a_setting_reads_as_forced() {
    assert_eq!(PowerMode::from_code(2), PowerMode::Forced);
    assert_eq!(PowerMode::from_code(4), PowerMode::Forced);
    assert_eq!(PowerMode::from_code(255), PowerMode::Forced);
}

#[test]
fn control_encodes_to_exact_bytes() {
    let control =
        Control { osrs_t: Oversampling::x2, osrs_p: Oversampling::x2, mode: PowerMode::Normal };
    assert_eq!(control.encode(), 0b010_010_11);
    let control =
        Control { osrs_t: Oversampling::x16, osrs_p: Oversampling::skipped, mode: PowerMode::Forced };
    assert_eq!(control.encode(), 0b101_000_01);
    let control =
        Control { osrs_t: Oversampling::skipped, osrs_p: Oversampling::x8, mode: PowerMode::Sleep };
    assert_eq!(control.encode(), 0b000_100_00);
}

#[test]
fn control_round_trips_for_every_setting() {
    for osrs_t in OVERSAMPLINGS {
        for osrs_p in OVERSAMPLINGS {
            for mode in MODES {
                let control = Control { osrs_t, osrs_p, mode };
                assert_eq!(Control::decode(control.encode()), control);
            }
        }
    }
}

#[test]
fn control_decode_falls_back() {
    let control = Control::decode(0b110_111_10);
    assert_eq!(control.osrs_t, Oversampling::x16);
    assert_eq!(control.osrs_p, Oversampling::x16);
    assert_eq!(control.mode, PowerMode::Forced);
    let control = Control::decode(0xFF);
    assert_eq!(
        control,
        Control { osrs_t: Oversampling::x16, osrs_p: Oversampling::x16, mode: PowerMode::Normal }
    );
}

#[test]
fn control_decode_of_zero() {
    assert_eq!(
        Control::decode(0),
        Control { osrs_t: Oversampling::skipped, osrs_p: Oversampling::skipped, mode: PowerMode::Sleep }
    );
}

#[test]
fn control_decode_is_stable_for_every_byte() {
    for byte in 0..=255u8 {
        let once = Control::decode(byte);
        assert_eq!(Control::decode(once.encode()), once);
    }
}

#[test]
fn standby_codes() {
    let codes: Vec<u8> = STANDBYS.iter().map(|s| s.code()).collect();
    assert_eq!(codes, vec![0, 1, 2, 3, 4, 5, 6, 7]);
    assert_eq!(Standby::unknown.code(), 8);
    for s in STANDBYS {
        assert_eq!(Standby::from_code(s.code()), s);
    }
    assert_eq!(Standby::from_code(8), Standby::unknown);
    assert_eq!(Standby::from_code(200), Standby::unknown);
}

#[test]
fn filter_codes() {
    let codes: Vec<u8> = FILTERS.iter().map(|f| f.code()).collect();
    assert_eq!(codes, vec![0, 1, 2, 3, 4, 5]);
    for f in FILTERS {
        assert_eq!(Filter::from_code(f.code()), f);
    }
    assert_eq!(Filter::from_code(6), Filter::unknown);
    assert_eq!(Filter::from_code(7), Filter::unknown);
}

#[test]
fn config_encodes_to_exact_bytes() {
    assert_eq!(Config { t_sb: Standby::ms125, filter: Filter::c4 }.encode(), 0b010_010_00);
    assert_eq!(Config { t_sb: Standby::ms4000, filter: Filter::c16 }.encode(), 0b111_100_00);
    assert_eq!(Config { t_sb: Standby::ms0_5, filter: Filter::off }.encode(), 0);
    assert_eq!(Config { t_sb: Standby::ms1000, filter: Filter::unknown }.encode(), 0b101_101_00);
}

#[test]
fn config_round_trips_for_every_known_standby() {
    for t_sb in STANDBYS {
        for filter in FILTERS {
            let config = Config { t_sb, filter };
            assert_eq!(Config::decode(config.encode()), config);
        }
    }
}

#[test]
fn config_unknown_standby_comes_back_as_shortest() {
    for filter in FILTERS {
        let config = Config { t_sb: Standby::unknown, filter };
        assert_eq!(config.encode(), filter.code() << 2);
        assert_eq!(Config::decode(config.encode()), Config { t_sb: Standby::ms0_5, filter });
    }
}

#[test]
fn config_round_trip_is_idempotent() {
    let mut standbys = STANDBYS.to_vec();
    standbys.push(Standby::unknown);
    for t_sb in standbys {
        for filter in FILTERS {
            let once = Config::decode(Config { t_sb, filter }.encode());
            assert_eq!(Config::decode(once.encode()), once);
        }
    }
}

#[test]
fn config_decode_falls_back() {
    assert_eq!(Config::decode(0b000_101_00).filter, Filter::unknown);
    assert_eq!(Config::decode(0b000_110_00).filter, Filter::unknown);
    assert_eq!(Config::decode(0b000_111_00).filter, Filter::unknown);
    assert_eq!(Config::decode(0xFF), Config { t_sb: Standby::ms4000, filter: Filter::unknown });
}

#[test]
fn config_decode_ignores_low_bits() {
    assert_eq!(Config::decode(0b011_001_11), Config { t_sb: Standby::ms250, filter: Filter::c2 });
    assert_eq!(Config::decode(0b011_001_00), Config { t_sb: Standby::ms250, filter: Filter::c2 });
}

#[test]
fn config_decode_never_gives_unknown_standby() {
    for byte in 0..=255u8 {
        assert_ne!(Config::decode(byte).t_sb, Standby::unknown);
    }
}

#[test]
fn status_reads_bits_three_and_zero() {
    assert_eq!(Status::decode(0b0000_1001), Status { measuring: true, im_update: true });
    assert_eq!(Status::decode(0b0000_1000), Status { measuring: true, im_update: false });
    assert_eq!(Status::decode(0b0000_0001), Status { measuring: false, im_update: true });
    assert_eq!(Status::decode(0b1111_0110), Status { measuring: false, im_update: false });
    assert_eq!(Status::decode(0), Status { measuring: false, im_update: false });
    assert_eq!(Status::decode(0xFF), Status { measuring: true, im_update: true });
}

#[test]
fn status_as_text() {
    assert_eq!(
        Status { measuring: true, im_update: false }.to_string(),
        "conversion is running: true, NVM data being copied: false"
    );
    assert_eq!(
        Status { measuring: false, im_update: true }.to_string(),
        "conversion is running: false, NVM data being copied: true"
    );
    assert_eq!(
        Status::decode(0x09).to_string(),
        "conversion is running: true, NVM data being copied: true"
    );
    assert_eq!(
        Status::decode(0).to_string(),
        "conversion is running: false, NVM data being copied: false"
    );
}
