/// The CRC-32 that the library's contracts describe (`crc32_of`), bit by
/// bit: start from all ones, add each byte to the low bits and shift eight
/// times with the reflected polynomial, invert at the end.
fn crc32_by_bits(data: &[u8]) -> u32 {
    let mut c: u32 = 0xFFFF_FFFF;
    for &b in data {
        c ^= b as u32;
        for _ in 0..8 {
            c = if c & 1 == 1 { (c >> 1) ^ 0xEDB8_8320 } else { c >> 1 };
        }
    }
    c ^ 0xFFFF_FFFF
}

#[test]
fn crc32_described_by_the_contracts_is_the_crates() {
    assert_eq!(crc32_by_bits(b"123456789"), 0xCBF4_3926);
    assert_eq!(crc32fast::hash(b"123456789"), 0xCBF4_3926);
    let mut x: u32 = 7;
    for n in 0..300usize {
        let data: Vec<u8> = (0..n)
            .map(|_| {
                x = x.wrapping_mul(1103515245).wrapping_add(12345);
                (x >> 16) as u8
            })
            .collect();
        assert_eq!(crc32_by_bits(&data), crc32fast::hash(&data));
    }
}
