use evm::analysis::{analyze, is_valid_jump_destination, BitVec};

#[test]
fn push2_then_jumpdest() {
    let code = [0x61u8, 0xAA, 0xBB, 0x5b];
    let bits = analyze(&code);
    assert!(!bits.is_set(0));
    assert!(bits.is_set(1));
    assert!(bits.is_set(2));
    assert!(!bits.is_set(3));
    assert!(is_valid_jump_destination(&bits, &code, 3));
    assert!(!is_valid_jump_destination(&bits, &code, 1));
    assert!(!is_valid_jump_destination(&bits, &code, 0));
    assert!(!is_valid_jump_destination(&bits, &code, 4));
}

#[test]
fn truncated_push_marks_only_what_is_there() {
    let code = [0x62u8, 0x01];
    let bits = analyze(&code);
    assert!(!bits.is_set(0));
    assert!(bits.is_set(1));
    assert!(!bits.is_set(2));
    assert!(!bits.is_set(3));
}

#[test]
fn jumpdest_inside_push_data_is_not_a_destination() {
    // PUSH1 JUMPDEST, JUMPDEST
    let code = [0x60u8, 0x5b, 0x5b];
    let bits = analyze(&code);
    assert!(!is_valid_jump_destination(&bits, &code, 1));
    assert!(is_valid_jump_destination(&bits, &code, 2));
}

#[test]
fn push_data_is_not_decoded_as_code() {
    // PUSH1 0x61 (a PUSH2 byte as data), then PUSH0, undefined 0x0c, JUMPDEST
    let code = [0x60u8, 0x61, 0x5f, 0x0c, 0x5b];
    let bits = analyze(&code);
    let marks: Vec<bool> = (0..code.len()).map(|i| bits.is_set(i)).collect();
    assert_eq!(marks, vec![false, true, false, false, false]);
    assert!(is_valid_jump_destination(&bits, &code, 4));
}

#[test]
fn push32_spans_thirty_two_bytes() {
    let mut code = vec![0x7fu8];
    code.extend(std::iter::repeat(0x5b).take(32));
    code.push(0x5b);
    let bits = analyze(&code);
    for i in 1..=32 {
        assert!(bits.is_set(i));
        assert!(!is_valid_jump_destination(&bits, &code, i));
    }
    assert!(!bits.is_set(33));
    assert!(is_valid_jump_destination(&bits, &code, 33));
}

#[test]
fn empty_code_has_no_destinations() {
    let code: [u8; 0] = [];
    let bits = analyze(&code);
    assert!(!bits.is_set(0));
    assert!(!is_valid_jump_destination(&bits, &code, 0));
}

#[test]
fn bitvec_set_marks_one_position() {
    let mut bits = BitVec::new(20);
    bits.set_1(9);
    bits.set_1(0);
    for i in 0..24 {
        assert_eq!(bits.is_set(i), i == 9 || i == 0, "position {}", i);
    }
    assert!(!bits.is_set(1000));
}
