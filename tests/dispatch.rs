use flash_loan_mastery::dispatch::{discriminator_from_digest, get_instruction_discriminator, read_u64_be, read_u64_le};

#[test]
fn digest_prefix_is_read_big_endian() {
    let mut d = [0u8; 32];
    d[0] = 1;
    d[7] = 2;
    d[8] = 0xff;
    assert_eq!(discriminator_from_digest(&d), 0x0100_0000_0000_0002);
}

#[test]
fn fixed_width_reads() {
    let data = [1u8, 2, 3, 4, 5, 6, 7, 8, 9];
    assert_eq!(read_u64_be(&data, 1), 0x0203_0405_0607_0809);
    assert_eq!(read_u64_le(&data, 0), 0x0807_0605_0403_0201);
}

#[test]
fn discriminator_of_global_borrow() {
    let name: &[u8] = b"global:borrow";
    let tag = get_instruction_discriminator(&[name]);
    let digest = anchor_lang::solana_program::hash::hash(name).to_bytes();
    let mut prefix = [0u8; 8];
    prefix.copy_from_slice(&digest[..8]);
    assert_eq!(tag, u64::from_be_bytes(prefix));
    let split: [&[u8]; 2] = [b"global:", b"borrow"];
    assert_eq!(get_instruction_discriminator(&split), tag);
}
