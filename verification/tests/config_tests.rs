//! Bitfield model: encode/decode round trips, rejection of illegal
//! patterns, scale factors and frequencies.

use icm42688::config::{
    AccelBandwidth, AccelODR, AccelRange, Address, GyroBandwidth, GyroODR, GyroRange, I2CSlewRate,
    PowerMode,
};
use icm42688::error::SensorError;

#[test]
fn accel_range_roundtrip() {
    let all = [AccelRange::G2, AccelRange::G4, AccelRange::G8, AccelRange::G16];
    for v in all {
        assert_eq!(AccelRange::from_bits(v.bits() >> 5), Ok(v));
        assert_eq!(v.bits() & !AccelRange::BITMASK, 0);
    }
}

#[test]
fn gyro_range_roundtrip() {
    let all = [
        GyroRange::Deg15_625,
        GyroRange::Deg31_25,
        GyroRange::Deg62_5,
        GyroRange::Deg125,
        GyroRange::Deg250,
        GyroRange::Deg500,
        GyroRange::Deg1000,
        GyroRange::Deg2000,
    ];
    for v in all {
        assert_eq!(GyroRange::from_bits(v.bits() >> 5), Ok(v));
        assert_eq!(v.bits() & !GyroRange::BITMASK, 0);
    }
}

#[test]
fn slew_rate_roundtrip() {
    let all = [
        I2CSlewRate::Slew60ns,
        I2CSlewRate::Slew18ns,
        I2CSlewRate::Slew12ns,
        I2CSlewRate::Slew6ns,
        I2CSlewRate::Slew2ns,
    ];
    for v in all {
        assert_eq!(I2CSlewRate::from_bits(v.bits() >> 3), Ok(v));
        assert_eq!(v.bits() & !I2CSlewRate::BITMASK, 0);
    }
}

#[test]
fn power_mode_roundtrip() {
    let all = [
        PowerMode::Sleep,
        PowerMode::Standby,
        PowerMode::AccelLowPower,
        PowerMode::AccelLowNoise,
        PowerMode::GyroLowNoise,
        PowerMode::SixAxisLowNoise,
        PowerMode::Idle,
        PowerMode::AccelLowPowerTemp,
        PowerMode::AccelLowNoiseTemp,
        PowerMode::GyroLowNoiseTemp,
        PowerMode::SixAxisLowNoiseTemp,
    ];
    for v in all {
        assert_eq!(PowerMode::from_bits(v.bits()), Ok(v));
        assert_eq!(v.bits() & !PowerMode::BITMASK, 0);
    }
}

#[test]
fn accel_odr_roundtrip() {
    let all = [
        AccelODR::Hz32000,
        AccelODR::Hz16000,
        AccelODR::Hz8000,
        AccelODR::Hz4000,
        AccelODR::Hz2000,
        AccelODR::Hz1000,
        AccelODR::Hz200,
        AccelODR::Hz100,
        AccelODR::Hz50,
        AccelODR::Hz25,
        AccelODR::Hz12_5,
        AccelODR::Hz6_25,
        AccelODR::Hz3_125,
        AccelODR::Hz1_5625,
        AccelODR::Hz500,
    ];
    for v in all {
        assert_eq!(AccelODR::from_bits(v.bits()), Ok(v));
        assert_eq!(v.bits() & !AccelODR::BITMASK, 0);
    }
}

#[test]
fn gyro_odr_roundtrip() {
    let all = [
        GyroODR::Hz32000,
        GyroODR::Hz16000,
        GyroODR::Hz8000,
        GyroODR::Hz4000,
        GyroODR::Hz2000,
        GyroODR::Hz1000,
        GyroODR::Hz200,
        GyroODR::Hz100,
        GyroODR::Hz50,
        GyroODR::Hz25,
        GyroODR::Hz12_5,
        GyroODR::Hz500,
    ];
    for v in all {
        assert_eq!(GyroODR::from_bits(v.bits()), Ok(v));
        assert_eq!(v.bits() & !GyroODR::BITMASK, 0);
    }
}

#[test]
fn bandwidth_roundtrips() {
    let all_g = [
        GyroBandwidth::OdrHalf,
        GyroBandwidth::OdrQuarter,
        GyroBandwidth::OdrFifth,
        GyroBandwidth::OdrEighth,
        GyroBandwidth::OdrTenth,
        GyroBandwidth::OdrSixteenth,
        GyroBandwidth::OdrTwenty,
        GyroBandwidth::OdrFourteen,
        GyroBandwidth::OdrLowLatency400,
        GyroBandwidth::OdrLowLatency200,
    ];
    for v in all_g {
        assert_eq!(GyroBandwidth::from_bits(v.bits()), Ok(v));
        assert_eq!(v.bits() & !GyroBandwidth::BITMASK, 0);
    }
    let all_a = [
        AccelBandwidth::OdrHalf,
        AccelBandwidth::OdrQuarter,
        AccelBandwidth::OdrFifth,
        AccelBandwidth::OdrEighth,
        AccelBandwidth::OdrTenth,
        AccelBandwidth::OdrSixteenth,
        AccelBandwidth::OdrTwenty,
        AccelBandwidth::OdrFourteen,
        AccelBandwidth::OdrLowLatency400,
        AccelBandwidth::OdrLowLatency200,
    ];
    for v in all_a {
        assert_eq!(AccelBandwidth::from_bits((v.bits() >> 4) & 0x0F), Ok(v));
        assert_eq!(v.bits() & !AccelBandwidth::BITMASK, 0);
    }
}

#[test]
fn decode_rejects_illegal_patterns() {
    assert_eq!(AccelRange::from_bits(4), Err(SensorError::InvalidDiscriminant));
    assert_eq!(AccelRange::from_bits(255), Err(SensorError::InvalidDiscriminant));
    assert_eq!(GyroRange::from_bits(8), Err(SensorError::InvalidDiscriminant));
    assert_eq!(AccelODR::from_bits(0), Err(SensorError::InvalidDiscriminant));
    assert_eq!(GyroODR::from_bits(0), Err(SensorError::InvalidDiscriminant));
    assert_eq!(GyroODR::from_bits(0b1100), Err(SensorError::InvalidDiscriminant));
    assert_eq!(GyroODR::from_bits(0b1101), Err(SensorError::InvalidDiscriminant));
    assert_eq!(GyroODR::from_bits(0b1110), Err(SensorError::InvalidDiscriminant));
    assert_eq!(GyroBandwidth::from_bits(0b1000), Err(SensorError::InvalidDiscriminant));
    assert_eq!(AccelBandwidth::from_bits(0b1101), Err(SensorError::InvalidDiscriminant));
    assert_eq!(PowerMode::from_bits(0b111111), Err(SensorError::InvalidDiscriminant));
    assert_eq!(PowerMode::from_bits(0b000000), Err(SensorError::InvalidDiscriminant));
    assert_eq!(I2CSlewRate::from_bits(0b010), Err(SensorError::InvalidDiscriminant));
}

#[test]
fn accel_scale_factors() {
    assert_eq!(AccelRange::G2.counts_per_g(), 16384);
    assert_eq!(AccelRange::G4.counts_per_g(), 8192);
    assert_eq!(AccelRange::G8.counts_per_g(), 4096);
    assert_eq!(AccelRange::G16.counts_per_g(), 2048);
}

#[test]
fn gyro_scale_factors() {
    assert_eq!(GyroRange::Deg15_625.counts_per_dps_x10(), 20972);
    assert_eq!(GyroRange::Deg250.counts_per_dps_x10(), 1310);
    assert_eq!(GyroRange::Deg2000.counts_per_dps_x10(), 164);
}

#[test]
fn odr_frequencies() {
    assert_eq!(AccelODR::Hz32000.hz_x10000(), 320_000_000);
    assert_eq!(AccelODR::Hz1_5625.hz_x10000(), 15_625);
    assert_eq!(AccelODR::Hz12_5.hz_x10000(), 125_000);
    assert_eq!(GyroODR::Hz500.hz_x10000(), 5_000_000);
    assert!((AccelODR::Hz12_5.hz_x10000() as f32 / 10_000.0 - 12.5).abs() < 1e-6);
}

#[test]
fn bandwidth_ratios() {
    assert_eq!(GyroBandwidth::OdrHalf.ratio_x10000(), 5000);
    assert_eq!(GyroBandwidth::OdrSixteenth.ratio_x10000(), 625);
    assert_eq!(GyroBandwidth::OdrFourteen.ratio_x10000(), 250);
    assert_eq!(AccelBandwidth::OdrLowLatency400.ratio_x10000(), 4_000_000);
    assert!((AccelBandwidth::OdrSixteenth.ratio_x10000() as f32 / 10_000.0 - 1.0 / 16.0).abs() < 1e-6);
}

#[test]
fn defaults_match_device_reset_values() {
    assert_eq!(AccelRange::default(), AccelRange::G16);
    assert_eq!(GyroRange::default(), GyroRange::Deg2000);
    assert_eq!(PowerMode::default(), PowerMode::Sleep);
    assert_eq!(AccelODR::default(), AccelODR::Hz1000);
    assert_eq!(GyroODR::default(), GyroODR::Hz1000);
    assert_eq!(GyroBandwidth::default(), GyroBandwidth::OdrQuarter);
    assert_eq!(AccelBandwidth::default(), AccelBandwidth::OdrQuarter);
    assert_eq!(Address::default(), Address::Primary);
}

#[test]
fn addresses() {
    assert_eq!(Address::Primary.value(), 0x68);
    assert_eq!(Address::Secondary.value(), 0x69);
}
