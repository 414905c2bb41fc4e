use saadc::{Gain, Oversample, Reference, Resistor, Resolution, SaadcConfig, Time};

#[test]
fn default_config_matches_documented_values() {
    let cfg = SaadcConfig::default();
    assert_eq!(cfg.resolution, Resolution::Bits14);
    assert_eq!(cfg.oversample, Oversample::Over8x);
    assert_eq!(cfg.reference, Reference::Vdd1_4);
    assert_eq!(cfg.gain, Gain::Gain1_4);
    assert_eq!(cfg.resistor, Resistor::Bypass);
    assert_eq!(cfg.time, Time::Us20);
}

#[test]
fn resolution_register_encodings() {
    assert_eq!(Resolution::Bits8.bits(), 0);
    assert_eq!(Resolution::Bits10.bits(), 1);
    assert_eq!(Resolution::Bits12.bits(), 2);
    assert_eq!(Resolution::Bits14.bits(), 3);
}

#[test]
fn oversample_register_encodings() {
    assert_eq!(Oversample::Bypass.bits(), 0);
    assert_eq!(Oversample::Over2x.bits(), 1);
    assert_eq!(Oversample::Over4x.bits(), 2);
    assert_eq!(Oversample::Over8x.bits(), 3);
    assert_eq!(Oversample::Over16x.bits(), 4);
    assert_eq!(Oversample::Over32x.bits(), 5);
    assert_eq!(Oversample::Over64x.bits(), 6);
    assert_eq!(Oversample::Over128x.bits(), 7);
    assert_eq!(Oversample::Over256x.bits(), 8);
}

#[test]
fn reference_gain_resistor_time_encodings() {
    assert_eq!(Reference::Internal.bits(), 0);
    assert_eq!(Reference::Vdd1_4.bits(), 1);
    assert_eq!(Gain::Gain1_6.bits(), 0);
    assert_eq!(Gain::Gain1_4.bits(), 2);
    assert_eq!(Gain::Gain1.bits(), 5);
    assert_eq!(Gain::Gain4.bits(), 7);
    assert_eq!(Resistor::Bypass.bits(), 0);
    assert_eq!(Resistor::Pulldown.bits(), 1);
    assert_eq!(Resistor::Pullup.bits(), 2);
    assert_eq!(Resistor::Vdd1_2.bits(), 3);
    assert_eq!(Time::Us3.bits(), 0);
    assert_eq!(Time::Us5.bits(), 1);
    assert_eq!(Time::Us10.bits(), 2);
    assert_eq!(Time::Us15.bits(), 3);
    assert_eq!(Time::Us20.bits(), 4);
    assert_eq!(Time::Us40.bits(), 5);
}

#[test]
fn default_config_encodes_to_documented_register_values() {
    let cfg = SaadcConfig::default();
    assert_eq!(cfg.resolution.bits(), 3);
    assert_eq!(cfg.oversample.bits(), 3);
    assert_eq!(cfg.reference.bits(), 1);
    assert_eq!(cfg.gain.bits(), 2);
    assert_eq!(cfg.resistor.bits(), 0);
    assert_eq!(cfg.time.bits(), 4);
}

#[test]
fn channel_config_register_packs_fields_at_their_offsets() {
    // gain 1/4 at bit 8, reference supply/4 at bit 12, 20 microsecond
    // acquisition at bit 16, burst accumulation at bit 24
    let cfg = SaadcConfig::default();
    assert_eq!(cfg.channel_config_bits(), 0x0104_1200);
    // pull-up resistor lands in the lowest field
    let pulled = SaadcConfig { resistor: Resistor::Pullup, ..SaadcConfig::default() };
    assert_eq!(pulled.channel_config_bits(), 0x0104_1202);
}
