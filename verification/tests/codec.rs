use compute_runner::source::{null_terminated, TERMINATOR};
use compute_runner::words::{checked_sum, decode_words, encode_words, WORD_SIZE};

#[test]
fn terminator_is_appended_once() {
    assert_eq!(TERMINATOR, 0);
    assert_eq!(null_terminated(b"void main() {}"), b"void main() {}\0".to_vec());
}

#[test]
fn empty_source_becomes_lone_terminator() {
    assert_eq!(null_terminated(b""), vec![0u8]);
}

#[test]
fn source_with_inner_zero_is_kept_whole() {
    assert_eq!(null_terminated(&[1, 0, 2]), vec![1u8, 0, 2, 0]);
}

#[test]
fn word_is_stored_least_significant_byte_first() {
    assert_eq!(encode_words(&[0x0403_0201]), vec![1u8, 2, 3, 4]);
    assert_eq!(encode_words(&[513]), vec![1u8, 2, 0, 0]);
    assert_eq!(encode_words(&[u32::MAX]), vec![255u8, 255, 255, 255]);
    assert_eq!(encode_words(&[0]), vec![0u8, 0, 0, 0]);
}

#[test]
fn words_follow_one_another() {
    assert_eq!(
        encode_words(&[1, 256, 65536, 16777216]),
        vec![1u8, 0, 0, 0, 0, 1, 0, 0, 0, 0, 1, 0, 0, 0, 0, 1]
    );
}

#[test]
fn no_words_are_no_bytes() {
    assert_eq!(encode_words(&[]), Vec::<u8>::new());
    assert_eq!(decode_words(&[]), Some(Vec::<u32>::new()));
}

#[test]
fn bytes_decode_to_their_words() {
    assert_eq!(decode_words(&[1, 2, 3, 4]), Some(vec![0x0403_0201u32]));
    assert_eq!(decode_words(&[255, 255, 255, 255, 0, 0, 0, 128]), Some(vec![u32::MAX, 0x8000_0000]));
}

#[test]
fn broken_word_is_not_decoded() {
    assert_eq!(decode_words(&[1]), None);
    assert_eq!(decode_words(&[1, 2, 3]), None);
    assert_eq!(decode_words(&[1, 2, 3, 4, 5]), None);
    assert_eq!(decode_words(&[1, 2, 3, 4, 5, 6, 7]), None);
}

#[test]
fn encoding_matches_the_memory_of_little_endian_hosts() {
    let words = [0u32, 1, 0xdead_beef, 0x0102_0304, u32::MAX];
    let mut expected = Vec::new();
    for w in words {
        expected.extend_from_slice(&w.to_le_bytes());
    }
    assert_eq!(encode_words(&words), expected);
}

#[test]
fn words_survive_the_round_trip() {
    let words: Vec<u32> = (0..1024u32).map(|i| i.wrapping_mul(0x9e37_79b9)).collect();
    let bytes = encode_words(&words);
    assert_eq!(bytes.len(), WORD_SIZE * words.len());
    assert_eq!(decode_words(&bytes), Some(words));
}

#[test]
fn bytes_survive_the_round_trip() {
    let bytes: Vec<u8> = (0..400u32).map(|i| (i * 7 % 251) as u8).collect();
    let words = decode_words(&bytes).unwrap();
    assert_eq!(words.len(), 100);
    assert_eq!(encode_words(&words), bytes);
}

#[test]
fn encoded_size_is_four_bytes_a_word() {
    for count in [0usize, 1, 3, 7, 100, 1023, 1024, 1025] {
        let words = vec![0xa5a5_a5a5u32; count];
        assert_eq!(encode_words(&words).len(), 4 * count);
    }
}

#[test]
fn sum_of_indices_of_a_full_grid() {
    let words: Vec<u32> = (0..1024).collect();
    assert_eq!(checked_sum(&words), Some(523776));
    assert_eq!(words.len(), 1024);
}

#[test]
fn sum_of_nothing_is_zero() {
    assert_eq!(checked_sum(&[]), Some(0));
}

#[test]
fn sum_up_to_the_largest_word_fits() {
    assert_eq!(checked_sum(&[u32::MAX]), Some(u32::MAX));
    assert_eq!(checked_sum(&[u32::MAX - 1, 1]), Some(u32::MAX));
    assert_eq!(checked_sum(&[1, 2, 3]), Some(6));
}

#[test]
fn sum_beyond_the_largest_word_is_none() {
    assert_eq!(checked_sum(&[u32::MAX, 1]), None);
    assert_eq!(checked_sum(&[1, u32::MAX, 0]), None);
    assert_eq!(checked_sum(&[0x8000_0000, 0x8000_0000]), None);
}
