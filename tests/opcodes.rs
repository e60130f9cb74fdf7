use evm::opcodes::{InvalidOpcode, InvalidOpcodeName, Opcode, DIFFICULTY, JUMPDEST, PUSH0, PUSH1};

const UNDEFINED_RANGES: [(u8, u8); 7] = [
    (0x0c, 0x0f),
    (0x1e, 0x1f),
    (0x21, 0x2f),
    (0x4b, 0x4f),
    (0xa5, 0xef),
    (0xf6, 0xf9),
    (0xfb, 0xfc),
];

fn in_undefined_range(b: u8) -> bool {
    UNDEFINED_RANGES.iter().any(|&(lo, hi)| lo <= b && b <= hi)
}

#[test]
fn decode_fails_exactly_in_the_undefined_ranges() {
    for b in 0..=255u8 {
        let r = Opcode::decode(b);
        if in_undefined_range(b) {
            assert_eq!(r.err(), Some(InvalidOpcode { byte: b }), "byte {:#x}", b);
        } else {
            assert_eq!(r.expect("defined byte").byte(), b);
        }
    }
}

#[test]
fn decode_rejects_range_ends() {
    for b in [0x0fu8, 0x1f, 0x2f, 0x4f, 0xef, 0xf9, 0xfc] {
        assert!(Opcode::decode(b).is_err(), "byte {:#x}", b);
    }
    for b in [0x0bu8, 0x10, 0x1d, 0x20, 0x30, 0x4a, 0x50, 0xa4, 0xf0, 0xf5, 0xfa, 0xfd] {
        assert!(Opcode::decode(b).is_ok(), "byte {:#x}", b);
    }
}

#[test]
fn display_then_encode_round_trips_every_byte() {
    let mut defined = 0;
    for b in 0..=255u8 {
        if let Ok(op) = Opcode::decode(b) {
            defined += 1;
            let name = op.to_string();
            assert!(!name.is_empty());
            assert_eq!(Opcode::encode(&name).unwrap().byte(), b, "name {}", name);
        }
    }
    assert_eq!(defined, 149);
}

#[test]
fn display_gives_canonical_names() {
    let cases = [
        (0x00u8, "STOP"),
        (0x01, "ADD"),
        (0x0b, "SIGNEXTEND"),
        (0x20, "KECCAK256"),
        (0x44, "DIFFICULTY"),
        (0x5b, "JUMPDEST"),
        (0x5f, "PUSH0"),
        (0x60, "PUSH1"),
        (0x7f, "PUSH32"),
        (0x80, "DUP1"),
        (0x9f, "SWAP16"),
        (0xa4, "LOG4"),
        (0xf2, "CALLCODE"),
        (0xf3, "RETURN"),
        (0xfe, "INVALID"),
        (0xff, "SELFDESTRUCT"),
    ];
    for (b, name) in cases {
        assert_eq!(Opcode::decode(b).unwrap().to_string(), name);
    }
}

#[test]
fn encode_accepts_the_aliases_of_difficulty() {
    for name in ["DIFFICULTY", "RANDOM", "PREVRANDAO"] {
        let op = Opcode::encode(name).unwrap();
        assert_eq!(op.byte(), DIFFICULTY);
        assert_eq!(op.to_string(), "DIFFICULTY");
    }
}

#[test]
fn encode_is_case_sensitive_and_exact() {
    for name in ["add", "Add", "ADD ", " ADD", "", "PUSH33", "DUP0", "SWAP17", "JUMPDESTX"] {
        assert_eq!(
            Opcode::encode(name).err(),
            Some(InvalidOpcodeName { name: name.to_string() })
        );
    }
    assert_eq!(Opcode::encode("ADD").unwrap().byte(), 0x01);
    assert_eq!(Opcode::encode("RETURNDATACOPY").unwrap().byte(), 0x3e);
}

#[test]
fn is_push_covers_push0_to_push32() {
    for b in 0..=255u8 {
        if let Ok(op) = Opcode::decode(b) {
            assert_eq!(op.is_push(), (0x5f..=0x7f).contains(&b));
        }
    }
}

#[test]
fn push_width_is_offset_from_push1() {
    assert_eq!(Opcode::decode(PUSH0).unwrap().push_width(), 0);
    assert_eq!(Opcode::decode(PUSH1).unwrap().push_width(), 1);
    assert_eq!(Opcode::encode("PUSH2").unwrap().push_width(), 2);
    assert_eq!(Opcode::encode("PUSH20").unwrap().push_width(), 20);
    assert_eq!(Opcode::encode("PUSH32").unwrap().push_width(), 32);
    assert_eq!(Opcode::decode(JUMPDEST).unwrap().push_width(), 0);
    assert_eq!(Opcode::encode("DUP1").unwrap().push_width(), 0);
}
