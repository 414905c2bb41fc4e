use saadc::{psel_encoding, AnalogPin, Channel, InternalVdd, InternalVddHdiv5};

#[test]
fn external_inputs_encode_one_past_their_index() {
    assert_eq!(psel_encoding(0), Some(1));
    assert_eq!(psel_encoding(1), Some(2));
    assert_eq!(psel_encoding(2), Some(3));
    assert_eq!(psel_encoding(7), Some(8));
}

#[test]
fn internal_senses_have_fixed_encodings() {
    assert_eq!(psel_encoding(8), Some(9));
    assert_eq!(psel_encoding(13), Some(13));
}

#[test]
fn codes_outside_the_closed_set_are_rejected() {
    assert_eq!(psel_encoding(9), None);
    assert_eq!(psel_encoding(10), None);
    assert_eq!(psel_encoding(11), None);
    assert_eq!(psel_encoding(12), None);
    assert_eq!(psel_encoding(14), None);
    assert_eq!(psel_encoding(255), None);
}

#[test]
fn capability_tokens_name_their_channel_codes() {
    assert_eq!(<AnalogPin<0> as Channel>::channel(), 0);
    assert_eq!(<AnalogPin<5> as Channel>::channel(), 5);
    assert_eq!(<AnalogPin<7> as Channel>::channel(), 7);
    assert_eq!(<InternalVdd as Channel>::channel(), 8);
    assert_eq!(<InternalVddHdiv5 as Channel>::channel(), 13);
}
