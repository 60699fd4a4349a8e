use wlmouse::product::{
    Protocol, WLMouseProduct, BEAST_X_8K_ID, BEAST_X_8K_RECEIVER_ID, BEAST_X_ID,
    BEAST_X_RECEIVER_ID,
};
use wlmouse::report::{
    build_feature_command, build_raw_command, decode_polling_rate, Query, FEATURE_REPORT_LEN,
    RAW_BATTERY_MARKER, RAW_HANDSHAKE_MARKER, RAW_REPORT_LEN, SETTLE_DELAY_MS, VALUE_OFFSET,
};

#[test]
fn classify_maps_each_known_identifier() {
    assert_eq!(WLMouseProduct::classify(0xA883), WLMouseProduct::BeastX8KReceiver);
    assert_eq!(WLMouseProduct::classify(0xA884), WLMouseProduct::BeastX8K);
    assert_eq!(WLMouseProduct::classify(0xA888), WLMouseProduct::BeastX);
    assert_eq!(WLMouseProduct::classify(0xA887), WLMouseProduct::BeastXReceiver);
}

#[test]
fn classify_maps_every_other_identifier_to_unknown() {
    let known = [0xA883u16, 0xA884, 0xA887, 0xA888];
    let mut id: u16 = 0;
    loop {
        if !known.contains(&id) {
            assert_eq!(WLMouseProduct::classify(id), WLMouseProduct::Unknown);
        }
        if id == u16::MAX {
            break;
        }
        id += 1;
    }
}

#[test]
fn classify_neighbours_of_known_identifiers_are_unknown() {
    assert_eq!(WLMouseProduct::classify(0xA882), WLMouseProduct::Unknown);
    assert_eq!(WLMouseProduct::classify(0xA885), WLMouseProduct::Unknown);
    assert_eq!(WLMouseProduct::classify(0xA886), WLMouseProduct::Unknown);
    assert_eq!(WLMouseProduct::classify(0xA889), WLMouseProduct::Unknown);
    assert_eq!(WLMouseProduct::classify(0), WLMouseProduct::Unknown);
    assert_eq!(WLMouseProduct::classify(u16::MAX), WLMouseProduct::Unknown);
}

#[test]
fn try_from_never_fails() {
    assert_eq!(WLMouseProduct::try_from(0xA883u16), Ok(WLMouseProduct::BeastX8KReceiver));
    assert_eq!(WLMouseProduct::try_from(0xA884u16), Ok(WLMouseProduct::BeastX8K));
    assert_eq!(WLMouseProduct::try_from(0xA888u16), Ok(WLMouseProduct::BeastX));
    assert_eq!(WLMouseProduct::try_from(0xA887u16), Ok(WLMouseProduct::BeastXReceiver));
    assert_eq!(WLMouseProduct::try_from(0x1234u16), Ok(WLMouseProduct::Unknown));
    assert_eq!(WLMouseProduct::try_from(0u16), Ok(WLMouseProduct::Unknown));
}

#[test]
fn id_is_the_identifier_that_classifies_to_the_variant() {
    assert_eq!(WLMouseProduct::BeastX8KReceiver.id(), 0xA883);
    assert_eq!(WLMouseProduct::BeastX8K.id(), 0xA884);
    assert_eq!(WLMouseProduct::BeastX.id(), 0xA888);
    assert_eq!(WLMouseProduct::BeastXReceiver.id(), 0xA887);
    assert_eq!(WLMouseProduct::Unknown.id(), 0);
    assert_eq!(BEAST_X_8K_RECEIVER_ID, 0xA883);
    assert_eq!(BEAST_X_8K_ID, 0xA884);
    assert_eq!(BEAST_X_ID, 0xA888);
    assert_eq!(BEAST_X_RECEIVER_ID, 0xA887);
    for product in [
        WLMouseProduct::BeastX8KReceiver,
        WLMouseProduct::BeastX8K,
        WLMouseProduct::BeastX,
        WLMouseProduct::BeastXReceiver,
    ] {
        assert_eq!(WLMouseProduct::classify(product.id()), product);
    }
}

#[test]
fn protocol_splits_the_variants_in_two_families() {
    assert_eq!(WLMouseProduct::BeastX8KReceiver.protocol(), Some(Protocol::FeatureReport));
    assert_eq!(WLMouseProduct::BeastX8K.protocol(), Some(Protocol::FeatureReport));
    assert_eq!(WLMouseProduct::BeastX.protocol(), Some(Protocol::WriteRead));
    assert_eq!(WLMouseProduct::BeastXReceiver.protocol(), Some(Protocol::WriteRead));
    assert_eq!(WLMouseProduct::Unknown.protocol(), None);
}

#[test]
fn name_is_the_text_for_a_person() {
    assert_eq!(WLMouseProduct::BeastX8KReceiver.name(), "WLMouse Beast X 8K Receiver");
    assert_eq!(WLMouseProduct::BeastX8K.name(), "WLMouse Beast X 8K");
    assert_eq!(WLMouseProduct::BeastXReceiver.name(), "WLMouse Beast X Receiver");
    assert_eq!(WLMouseProduct::BeastX.name(), "WLMouse Beast X");
    assert_eq!(WLMouseProduct::Unknown.name(), "Unknown");
}

#[test]
fn wire_constants_have_their_values() {
    assert_eq!(FEATURE_REPORT_LEN, 65);
    assert_eq!(RAW_REPORT_LEN, 64);
    assert_eq!(VALUE_OFFSET, 8);
    assert_eq!(SETTLE_DELAY_MS, 100);
    assert_eq!(RAW_HANDSHAKE_MARKER, 0xaa);
    assert_eq!(RAW_BATTERY_MARKER, 0x1a);
}

#[test]
fn feature_battery_command_bytes() {
    let mut expected = [0u8; 65];
    expected[3] = 0x02;
    expected[4] = 0x02;
    expected[6] = 0x83;
    assert_eq!(build_feature_command(Query::Battery), expected);
}

#[test]
fn feature_polling_rate_command_bytes() {
    let mut expected = [0u8; 65];
    expected[3] = 0x02;
    expected[4] = 0x02;
    expected[5] = 0x01;
    expected[6] = 0x80;
    expected[7] = 0x01;
    assert_eq!(build_feature_command(Query::PollingRate), expected);
}

#[test]
fn raw_command_bytes() {
    let mut handshake = [0u8; 64];
    handshake[0] = 0x04;
    handshake[3] = 0xaa;
    assert_eq!(build_raw_command(RAW_HANDSHAKE_MARKER), handshake);
    let mut battery = [0u8; 64];
    battery[0] = 0x04;
    battery[3] = 0x1a;
    assert_eq!(build_raw_command(RAW_BATTERY_MARKER), battery);
}

#[test]
fn polling_rate_decode_examples() {
    assert_eq!(decode_polling_rate(0x01), 1000);
    assert_eq!(decode_polling_rate(0x40), 4000);
    assert_eq!(decode_polling_rate(0xFF), 0);
}

#[test]
fn polling_rate_decode_table() {
    assert_eq!(decode_polling_rate(0x08), 125);
    assert_eq!(decode_polling_rate(0x04), 250);
    assert_eq!(decode_polling_rate(0x02), 500);
    assert_eq!(decode_polling_rate(0x01), 1000);
    assert_eq!(decode_polling_rate(0x20), 2000);
    assert_eq!(decode_polling_rate(0x40), 4000);
    assert_eq!(decode_polling_rate(0x80), 8000);
}

#[test]
fn polling_rate_decode_of_any_other_byte_is_zero() {
    let codes = [0x08u8, 0x04, 0x02, 0x01, 0x20, 0x40, 0x80];
    for raw in 0..=u8::MAX {
        if !codes.contains(&raw) {
            assert_eq!(decode_polling_rate(raw), 0);
        }
    }
    assert_eq!(decode_polling_rate(0x00), 0);
    assert_eq!(decode_polling_rate(0x10), 0);
    assert_eq!(decode_polling_rate(0x03), 0);
}
