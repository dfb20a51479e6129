use vulcast::frame::ControllerFields;
use vulcast::table::{Axis, Button};
use vulcast::{InputError, LastStateTable, NetworkControllerState, SinkOp};

fn frame(bytes: [u8; 13]) -> NetworkControllerState {
    NetworkControllerState(bytes)
}

#[test]
fn decode_rejects_wrong_lengths() {
    assert_eq!(NetworkControllerState::decode(&[0u8; 12]).unwrap_err(), InputError::FormatError);
    assert_eq!(NetworkControllerState::decode(&[0u8; 14]).unwrap_err(), InputError::FormatError);
    assert_eq!(NetworkControllerState::decode(&[]).unwrap_err(), InputError::FormatError);
}

#[test]
fn decode_keeps_bytes() {
    let bytes = [1u8, 2, 3, 4, 5, 6, 7, 8, 9, 10, 11, 12, 13];
    let f = NetworkControllerState::decode(&bytes).unwrap();
    assert_eq!(f.0, bytes);
}

#[test]
fn header_and_axes_are_read_big_endian() {
    let f = frame([3, 200, 0, 0, 0, 0x12, 0x34, 0xff, 0xff, 0x00, 0x01, 0x80, 0x00]);
    assert_eq!(f.player_id(), 3);
    assert_eq!(f.sequence_no(), 200);
    assert_eq!(f.num_buttons(), 17);
    assert_eq!(f.lh(), 0x1234);
    assert_eq!(f.lv(), 0xffff);
    assert_eq!(f.rh(), 1);
    assert_eq!(f.rv(), 0x8000);
    assert_eq!(f.get_u16(5), 0x1234);
}

#[test]
fn buttons_follow_bit_layout() {
    // byte 2: bits 0 and 2; byte 3: bit 1 (button 9) and bit 7 (button 15); byte 4: bit 0 (button 16)
    let f = frame([0, 0, 0b0000_0101, 0b1000_0010, 0b0000_0001, 0, 0, 0, 0, 0, 0, 0, 0]);
    let pressed: Vec<usize> = (0..17).filter(|&i| f.get_button(i)).collect();
    assert_eq!(pressed, vec![0, 2, 9, 15, 16]);
}

#[test]
fn each_button_is_its_own_bit() {
    for i in 0..17usize {
        let mut bytes = [0u8; 13];
        bytes[2 + i / 8] = 1 << (i % 8);
        let f = frame(bytes);
        for j in 0..17usize {
            assert_eq!(f.get_button(j), i == j);
        }
    }
}

#[test]
fn unused_bits_of_last_button_byte_are_not_buttons() {
    let f = frame([0, 0, 0, 0, 0b1111_1110, 0, 0, 0, 0, 0, 0, 0, 0]);
    assert!((0..17).all(|i| !f.get_button(i)));
}

#[test]
fn diff_ignores_player_and_sequence() {
    let a = frame([0, 1, 5, 6, 1, 1, 2, 3, 4, 5, 6, 7, 8]);
    let b = frame([2, 9, 5, 6, 1, 1, 2, 3, 4, 5, 6, 7, 8]);
    assert!(!a.diff(&b));
}

#[test]
fn diff_sees_one_bit() {
    let a = frame([0, 1, 5, 6, 1, 1, 2, 3, 4, 5, 6, 7, 8]);
    let mut b = a;
    b.0[12] ^= 0x40;
    assert!(a.diff(&b));
    let mut c = a;
    c.0[2] ^= 1;
    assert!(a.diff(&c));
}

#[test]
fn fields_re_encode_to_the_same_bytes() {
    let bytes = [2u8, 77, 0xa5, 0x3c, 0x01, 0x12, 0x34, 0x56, 0x78, 0x9a, 0xbc, 0xde, 0xf0];
    let f = frame(bytes);
    let fields = f.fields();
    assert_eq!(fields.player_id, 2);
    assert_eq!(fields.sequence_no, 77);
    assert_eq!(fields.buttons.len(), 17);
    assert_eq!(fields.lh, 0x1234);
    assert_eq!(fields.rv, 0xdef0);
    assert_eq!(fields.encode().0, bytes);
}

#[test]
fn encode_packs_buttons() {
    let mut buttons = vec![false; 17];
    buttons[1] = true;
    buttons[8] = true;
    buttons[16] = true;
    let fields = ControllerFields {
        player_id: 1,
        sequence_no: 5,
        buttons,
        lh: 0x0102,
        lv: 0,
        rh: 0xffff,
        rv: 0x8001,
    };
    assert_eq!(fields.encode().0, [1, 5, 0b10, 0b1, 0b1, 0x01, 0x02, 0, 0, 0xff, 0xff, 0x80, 0x01]);
}

#[test]
fn invalid_player_is_rejected_and_table_unchanged() {
    let mut t = LastStateTable::new();
    for p in [4u8, 5, 255] {
        let r = t.apply(frame([p, 0, 1, 0, 0, 0, 0, 0, 0, 0, 0, 0, 0]));
        assert_eq!(r.unwrap_err(), InputError::InvalidPlayer);
    }
    for p in 0..4 {
        assert_eq!(t.frame(p).0, [0u8; 13]);
    }
}

#[test]
fn all_zero_frame_on_fresh_table_writes_nothing() {
    let mut t = LastStateTable::new();
    let r = t.apply(frame([1, 42, 0, 0, 0, 0, 0, 0, 0, 0, 0, 0, 0])).unwrap();
    assert!(r.is_empty());
}

#[test]
fn repeated_payload_writes_nothing() {
    let mut t = LastStateTable::new();
    let first = t.apply(frame([0, 1, 1, 0, 0, 0, 0, 0, 0, 0, 0, 0, 9])).unwrap();
    assert_eq!(first.len(), 22);
    let second = t.apply(frame([0, 2, 1, 0, 0, 0, 0, 0, 0, 0, 0, 0, 9])).unwrap();
    assert!(second.is_empty());
}

#[test]
fn changed_payload_writes_every_input_then_flushes() {
    let mut t = LastStateTable::new();
    let f1 = frame([2, 1, 1, 0, 0, 0, 0, 0, 0, 0, 0, 0, 9]);
    let f2 = frame([2, 2, 1, 0, 0, 0, 0, 0, 0, 0, 0, 0, 8]);
    t.apply(f1).unwrap();
    let ops = t.apply(f2).unwrap();
    assert_eq!(ops.len(), 22);
    let writes = ops.iter().filter(|o| !matches!(o, SinkOp::Flush { .. })).count();
    assert_eq!(writes, 21);
    assert_eq!(ops[21], SinkOp::Flush { player: 2 });
    assert_eq!(ops[0], SinkOp::SetButton { player: 2, button: Button::A, pressed: true });
    assert_eq!(ops[16], SinkOp::SetButton { player: 2, button: Button::Home, pressed: false });
    assert_eq!(ops[20], SinkOp::SetAxis { player: 2, axis: Axis::RightVertical, value: 8 });
    assert_eq!(t.frame(2).0, f2.0);
}

#[test]
fn ops_carry_axes_in_order() {
    let mut t = LastStateTable::new();
    let ops = t.apply(frame([0, 0, 0, 0, 0, 0x01, 0x00, 0x02, 0x00, 0x03, 0x00, 0x04, 0x00])).unwrap();
    assert_eq!(ops[17], SinkOp::SetAxis { player: 0, axis: Axis::LeftHorizontal, value: 0x100 });
    assert_eq!(ops[18], SinkOp::SetAxis { player: 0, axis: Axis::LeftVertical, value: 0x200 });
    assert_eq!(ops[19], SinkOp::SetAxis { player: 0, axis: Axis::RightHorizontal, value: 0x300 });
    assert_eq!(ops[20], SinkOp::SetAxis { player: 0, axis: Axis::RightVertical, value: 0x400 });
}

#[test]
fn players_have_separate_slots() {
    let mut t = LastStateTable::new();
    let f = frame([0, 0, 4, 0, 0, 0, 0, 0, 0, 0, 0, 0, 0]);
    assert_eq!(t.apply(f).unwrap().len(), 22);
    let g = frame([1, 0, 4, 0, 0, 0, 0, 0, 0, 0, 0, 0, 0]);
    assert_eq!(t.apply(g).unwrap().len(), 22);
    assert_eq!(t.frame(3).0, [0u8; 13]);
}

#[test]
fn apply_bytes_checks_length() {
    let mut t = LastStateTable::new();
    assert_eq!(t.apply_bytes(&[0u8; 5]).unwrap_err(), InputError::FormatError);
    assert_eq!(t.apply_bytes(&[1, 0, 2, 0, 0, 0, 0, 0, 0, 0, 0, 0, 0]).unwrap().len(), 22);
}

#[test]
fn button_capabilities_follow_index_order() {
    assert_eq!(Button::from_index(0), Button::A);
    assert_eq!(Button::from_index(3), Button::Y);
    assert_eq!(Button::from_index(7), Button::ZR);
    assert_eq!(Button::from_index(10), Button::LeftStick);
    assert_eq!(Button::from_index(12), Button::Up);
    assert_eq!(Button::from_index(16), Button::Home);
}
