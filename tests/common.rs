use evm::common::address::Address;

#[test]
fn address_exposes_its_bytes() {
    let bytes: [u8; 20] = core::array::from_fn(|i| i as u8 + 1);
    let addr = Address::new(bytes);
    assert_eq!(addr.as_ref(), &bytes[..]);
}

#[test]
fn hash_exposes_its_bytes() {
    let bytes: [u8; 32] = core::array::from_fn(|i| 0xff - i as u8);
    let hash = evm::common::hash::Hash::new(bytes);
    assert_eq!(hash.as_ref(), &bytes[..]);
}
