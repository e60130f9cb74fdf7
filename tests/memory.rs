use ethnum::U256;
use evm::memory::Memory;

#[test]
fn can_resize() {
    let mut mem = Memory::new();
    mem.resize(32);
    assert_eq!(mem.as_ref().len(), 32);
}

#[test]
fn does_not_resize_when_size_is_bigger_than_store_len() {
    let mut mem = Memory::new();
    mem.resize(32);
    mem.resize(16);
    assert_eq!(mem.as_ref().len(), 32);
}

#[test]
fn can_set() {
    let mut mem = Memory::new();
    mem.resize(32);
    mem.set(0, 32, vec![0x01; 32]);
    assert_eq!(mem.as_ref().to_vec(), vec![0x01; 32]);
}

#[test]
#[should_panic]
fn cannot_set_when_memory_too_small() {
    let mut mem = Memory::new();
    mem.resize(32);
    mem.set(0, 64, vec![0x01; 64]);
}

#[test]
fn can_set_32() {
    let mut mem = Memory::new();
    mem.resize(32);
    mem.set_32(0, U256::new(0x01));
    // 0x01 is converted to 32 bytes, left-padded with zeroes
    assert_eq!(
        mem.as_ref().to_vec(),
        vec![
            0, 0, 0, 0, 0, 0, 0, 0, 0, 0, 0, 0, 0, 0, 0, 0, 0, 0, 0, 0, 0, 0, 0, 0, 0, 0, 0, 0, 0,
            0, 0, 1
        ]
    );
}

#[test]
#[should_panic]
fn cannot_set_32_when_memory_too_small() {
    let mut mem = Memory::new();
    mem.resize(30);
    let test = U256::from_str_hex(
        "0x001122334455667788990011223344556677889900112233445566778899001122",
    )
    .unwrap();
    mem.set_32(0, test);
}

#[test]
#[should_panic]
fn cannot_set_32_when_remaining_memory_too_small() {
    let mut mem = Memory::new();
    mem.resize(32);
    let test = U256::from_str_hex(
        "0x001122334455667788990011223344556677889900112233445566778899001122",
    )
    .unwrap();
    mem.set_32(2, test);
}

#[test]
fn can_get_copy() {
    let mut mem = Memory::new();
    mem.resize(32);
    mem.set(0, 32, [vec![0x01; 16], vec![0x02; 16]].concat());
    let result = mem.get_copy(16, 16);
    assert_eq!(result, Some(vec![0x02; 16]));
}

#[test]
fn can_get_copy_when_size_is_zero() {
    let mut mem = Memory::new();
    mem.resize(32);
    mem.set(0, 32, vec![0x01; 32]);
    let result = mem.get_copy(0, 0);
    assert_eq!(result, None);
}

#[test]
fn can_get_copy_when_offset_greater_than_len() {
    let mut mem = Memory::new();
    mem.resize(32);
    mem.set(0, 32, vec![0x01; 32]);
    let result = mem.get_copy(32, 1);
    assert_eq!(result, None);
}

#[test]
fn can_get_len() {
    let mut mem = Memory::new();
    mem.resize(10);
    assert_eq!(mem.len(), 10);
}

#[test]
fn can_copy() {
    let mut mem = Memory::new();
    mem.resize(32);
    mem.set(0, 32, [vec![0x01; 16], vec![0x02; 16]].concat());
    mem.copy(0, 16, 16);
    assert_eq!(mem.as_ref().to_vec(), vec![0x02; 32]);
}

#[test]
fn can_copy_when_len_is_zero() {
    let mut mem = Memory::new();
    mem.resize(32);
    mem.set(0, 32, [vec![0x01; 16], vec![0x02; 16]].concat());
    mem.copy(0, 16, 0);
    assert_eq!(mem.as_ref().to_vec(), [vec![0x01; 16], vec![0x02; 16]].concat());
}

#[test]
fn resize_keeps_contents_and_pads_with_zeros() {
    let mut mem = Memory::new();
    mem.resize(4);
    mem.set(0, 4, vec![9, 8, 7, 6]);
    mem.resize(8);
    assert_eq!(mem.as_ref().to_vec(), vec![9, 8, 7, 6, 0, 0, 0, 0]);
}

#[test]
fn grow_sequence_reaches_largest_target() {
    let mut mem = Memory::default();
    let mut last = 0;
    for target in [5usize, 64, 3, 32, 96, 0, 10] {
        mem.resize(target);
        assert!(mem.len() >= last);
        last = mem.len();
    }
    assert_eq!(mem.len(), 96);
}

#[test]
fn write_then_read_round_trip() {
    let bytes: Vec<u8> = (0u8..32).map(|i| i.wrapping_mul(7).wrapping_add(3)).collect();
    let mut mem = Memory::new();
    mem.resize(32);
    mem.set(0, 32, bytes.clone());
    assert_eq!(mem.get_copy(0, 32), Some(bytes));
}

#[test]
fn set_copies_only_the_requested_prefix() {
    let mut mem = Memory::new();
    mem.resize(6);
    mem.set(1, 3, vec![0xaa, 0xbb, 0xcc, 0xdd, 0xee]);
    assert_eq!(mem.as_ref().to_vec(), vec![0, 0xaa, 0xbb, 0xcc, 0, 0]);
}

#[test]
fn zero_size_write_is_a_no_op_anywhere() {
    let mut mem = Memory::new();
    mem.resize(4);
    mem.set(100, 0, vec![]);
    assert_eq!(mem.as_ref().to_vec(), vec![0; 4]);
}

#[test]
fn copy_down_overlapping_gives_upper_half_twice() {
    let a: Vec<u8> = (1u8..=16).collect();
    let b: Vec<u8> = (101u8..=116).collect();
    let mut mem = Memory::new();
    mem.resize(32);
    mem.set(0, 16, a);
    mem.set(16, 16, b.clone());
    mem.copy(0, 16, 16);
    assert_eq!(mem.as_ref().to_vec(), [b.clone(), b].concat());
}

#[test]
fn copy_up_overlapping_gives_lower_half_twice() {
    let a: Vec<u8> = (1u8..=16).collect();
    let b: Vec<u8> = (101u8..=116).collect();
    let mut mem = Memory::new();
    mem.resize(32);
    mem.set(0, 16, a.clone());
    mem.set(16, 16, b);
    mem.copy(16, 0, 16);
    assert_eq!(mem.as_ref().to_vec(), [a.clone(), a].concat());
}

#[test]
fn copy_with_partial_overlap_behaves_as_memmove() {
    let mut mem = Memory::new();
    mem.resize(8);
    mem.set(0, 8, vec![1, 2, 3, 4, 5, 6, 7, 8]);
    mem.copy(2, 0, 5);
    assert_eq!(mem.as_ref().to_vec(), vec![1, 2, 1, 2, 3, 4, 5, 8]);
    mem.copy(0, 3, 5);
    assert_eq!(mem.as_ref().to_vec(), vec![2, 3, 4, 5, 8, 4, 5, 8]);
}

#[test]
fn set_32_writes_big_endian_bytes() {
    let word = U256::from_words(
        0x00010203_04050607_08090a0b_0c0d0e0f,
        0x10111213_14151617_18191a1b_1c1d1e1f,
    );
    let mut mem = Memory::new();
    mem.resize(34);
    mem.set_32(1, word);
    let expected: Vec<u8> = [vec![0u8], (0u8..32).collect::<Vec<u8>>(), vec![0u8]].concat();
    assert_eq!(mem.as_ref().to_vec(), expected);
}
