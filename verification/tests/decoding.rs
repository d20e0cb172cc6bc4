use chip8_rust::opcode::Opcode;

#[test]
fn decodes_every_field_of_a_word() {
    let op = Opcode::new(0xABCD);
    assert_eq!(op.full_opcode, 0xABCD);
    assert_eq!(op.left_byte, 0xAB);
    assert_eq!(op.right_byte, 0xCD);
    assert_eq!(op.fourth_nibble, 0xA);
    assert_eq!(op.third_nibble, 0xB);
    assert_eq!(op.second_nibble, 0xC);
    assert_eq!(op.first_nibble, 0xD);
    assert_eq!(op.nnn(), 0xBCD);
}

#[test]
fn decodes_bytes_big_endian() {
    let op = Opcode::from_bytes(0x12, 0x34);
    assert_eq!(op, Opcode::new(0x1234));
    assert_eq!(op.full_opcode, 0x1234);
    assert_eq!(op.left_byte, 0x12);
    assert_eq!(op.right_byte, 0x34);
}

#[test]
fn conversion_from_a_word_is_decoding() {
    let op: Opcode = 0xF165.into();
    assert_eq!(op, Opcode::new(0xF165));
    assert_eq!(op.fourth_nibble, 0xF);
    assert_eq!(op.third_nibble, 0x1);
    assert_eq!(op.right_byte, 0x65);
}

#[test]
fn decodes_the_extreme_words() {
    let zero = Opcode::new(0x0000);
    assert_eq!(
        (zero.left_byte, zero.right_byte, zero.fourth_nibble, zero.third_nibble),
        (0, 0, 0, 0)
    );
    assert_eq!((zero.second_nibble, zero.first_nibble, zero.nnn()), (0, 0, 0));
    let ones = Opcode::new(0xFFFF);
    assert_eq!(
        (ones.left_byte, ones.right_byte, ones.fourth_nibble, ones.third_nibble),
        (0xFF, 0xFF, 0xF, 0xF)
    );
    assert_eq!((ones.second_nibble, ones.first_nibble, ones.nnn()), (0xF, 0xF, 0xFFF));
}

#[test]
fn every_word_is_spelled_back_by_its_parts() {
    for word in 0..=0xFFFFu16 {
        let op = Opcode::new(word);
        assert_eq!(((op.left_byte as u16) << 8) | op.right_byte as u16, word);
        assert_eq!(
            ((op.fourth_nibble as u16) << 12)
                | ((op.third_nibble as u16) << 8)
                | ((op.second_nibble as u16) << 4)
                | op.first_nibble as u16,
            word
        );
        assert_eq!(op, Opcode::from_bytes(op.left_byte, op.right_byte));
        assert_eq!(op.nnn(), word & 0x0FFF);
    }
}
