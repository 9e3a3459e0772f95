use simple_ping::checksum::compute;

/// The checksum worked out word by word, as RFC 1071 describes it.
fn by_the_book(bytes: &[u8]) -> u16 {
    let mut sum: u32 = 0;
    for (i, byte) in bytes.iter().enumerate() {
        sum += if i % 2 == 0 { (*byte as u32) << 8 } else { *byte as u32 };
    }
    while sum > 0xFFFF {
        sum = (sum & 0xFFFF) + (sum >> 16);
    }
    !(sum as u16)
}

/// Bytes that look random and are the same on every run.
fn scrambled(len: usize, seed: u32) -> Vec<u8> {
    let mut state = seed;
    let mut bytes = Vec::new();
    for _ in 0..len {
        state = state.wrapping_mul(1_103_515_245).wrapping_add(12_345);
        bytes.push((state >> 16) as u8);
    }
    bytes
}

#[test]
fn checksum_of_nothing_is_all_ones() {
    assert_eq!(compute(&[]), 0xFFFF);
}

#[test]
fn checksum_of_the_rfc_1071_example() {
    let bytes = [0x00, 0x01, 0xf2, 0x03, 0xf4, 0xf5, 0xf6, 0xf7];
    assert_eq!(compute(&bytes), 0x220d);
}

#[test]
fn checksum_pads_an_odd_length_with_zero() {
    assert_eq!(compute(&[0x12]), 0xEDFF);
    assert_eq!(compute(&[0x12, 0x00]), 0xEDFF);
    assert_eq!(compute(&[0x12, 0x34, 0x56]), !(0x1234u16 + 0x5600));
}

#[test]
fn checksum_of_all_ones_words_is_zero() {
    assert_eq!(compute(&[0xFF, 0xFF]), 0x0000);
    assert_eq!(compute(&[0xFF, 0xFF, 0xFF, 0xFF]), 0x0000);
}

#[test]
fn checksum_carries_around() {
    // 0xFFFF + 0x0002 = 0x1_0001, which folds to 0x0002.
    assert_eq!(compute(&[0xFF, 0xFF, 0x00, 0x02]), !0x0002u16);
}

#[test]
fn checksum_is_not_its_input() {
    assert_eq!(compute(&[0x12, 0x34]), 0xEDCB);
    assert_ne!(compute(&[0x12, 0x34]), 0x1234);
}

#[test]
fn checksum_agrees_with_the_book_at_every_length() {
    for len in 0..=600usize {
        let bytes = scrambled(len, len as u32 + 1);
        assert_eq!(compute(&bytes), by_the_book(&bytes), "length {}", len);
    }
}

#[test]
fn checksum_agrees_with_the_book_on_long_runs_of_ones() {
    for len in [63usize, 64, 65, 96, 127, 128, 129, 575, 576] {
        let bytes = vec![0xFFu8; len];
        assert_eq!(compute(&bytes), by_the_book(&bytes), "length {}", len);
    }
}

#[test]
fn checksum_agrees_with_the_book_where_wide_carries_meet() {
    let mut bytes = vec![0xFFu8; 16];
    bytes.push(1);
    bytes.extend_from_slice(&[0u8; 15]);
    bytes.extend_from_slice(&[0xFFu8; 16]);
    bytes.extend_from_slice(&[0u8; 16]);
    assert_eq!(bytes.len(), 64);
    assert_eq!(compute(&bytes), by_the_book(&bytes));
}

#[test]
fn checksum_notices_every_change_of_one_byte() {
    let bytes = scrambled(40, 7);
    let sum = compute(&bytes);
    for i in 0..bytes.len() {
        for value in 0..=255u8 {
            if value != bytes[i] {
                let mut changed = bytes.clone();
                changed[i] = value;
                assert_ne!(compute(&changed), sum, "byte {} set to {}", i, value);
            }
        }
    }
}

#[test]
fn checksum_misses_a_swap_of_two_words() {
    // Known limit of the sum: the order of the words does not matter.
    assert_eq!(compute(&[1, 2, 3, 4]), compute(&[3, 4, 1, 2]));
}
