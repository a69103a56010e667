use microdsp_demo::AppMessage;

const ALL_MESSAGES: [AppMessage; 16] = [
    AppMessage::Button0Down,
    AppMessage::Button0Up,
    AppMessage::Button1Down,
    AppMessage::Button1Up,
    AppMessage::Button2Down,
    AppMessage::Button2Up,
    AppMessage::Button3Down,
    AppMessage::Button3Up,
    AppMessage::Led0On,
    AppMessage::Led1On,
    AppMessage::Led2On,
    AppMessage::Led3On,
    AppMessage::Led0Off,
    AppMessage::Led1Off,
    AppMessage::Led2Off,
    AppMessage::Led3Off,
];

#[test]
fn byte_codes_cover_one_through_sixteen() {
    for (i, m) in ALL_MESSAGES.iter().enumerate() {
        assert_eq!(m.to_byte(), (i + 1) as u8);
    }
}

#[test]
fn byte_round_trip() {
    for m in ALL_MESSAGES.iter() {
        let code = m.to_byte();
        assert_eq!(AppMessage::from_byte(code), Some(*m));
    }
}

#[test]
fn zero_is_the_no_event_sentinel() {
    assert_eq!(AppMessage::from_byte(0), None);
}

#[test]
fn codes_above_sixteen_do_not_decode() {
    assert_eq!(AppMessage::from_byte(17), None);
    assert_eq!(AppMessage::from_byte(200), None);
    assert_eq!(AppMessage::from_byte(255), None);
}
