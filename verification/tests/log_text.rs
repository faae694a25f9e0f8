use compute_runner::log::{diagnostic_text, LOG_CAPACITY, LOG_TEXT_MAX};

#[test]
fn capacity_leaves_room_for_the_terminator() {
    assert_eq!(LOG_CAPACITY, 10240);
    assert_eq!(LOG_TEXT_MAX, LOG_CAPACITY - 1);
}

#[test]
fn text_stops_at_the_first_zero() {
    let mut buf = vec![0u8; LOG_CAPACITY];
    buf[..5].copy_from_slice(b"error");
    assert_eq!(diagnostic_text(&buf), b"error".to_vec());
}

#[test]
fn bytes_after_the_first_zero_are_left_out() {
    assert_eq!(diagnostic_text(b"0:1: syntax\0stale\0"), b"0:1: syntax".to_vec());
}

#[test]
fn untouched_buffer_holds_no_text() {
    assert_eq!(diagnostic_text(&vec![0u8; LOG_CAPACITY]), Vec::<u8>::new());
}

#[test]
fn empty_buffer_holds_no_text() {
    assert_eq!(diagnostic_text(&[]), Vec::<u8>::new());
}

#[test]
fn buffer_without_zero_is_text_throughout() {
    assert_eq!(diagnostic_text(b"abc"), b"abc".to_vec());
}

#[test]
fn text_is_cut_at_the_bound() {
    let buf = vec![b'x'; LOG_CAPACITY];
    assert_eq!(diagnostic_text(&buf), vec![b'x'; 10239]);
    let longer = vec![b'y'; 3 * LOG_CAPACITY];
    assert_eq!(diagnostic_text(&longer).len(), 10239);
}

#[test]
fn text_of_exactly_the_bound_is_kept() {
    let mut buf = vec![b'z'; LOG_CAPACITY];
    buf[LOG_TEXT_MAX] = 0;
    assert_eq!(diagnostic_text(&buf), vec![b'z'; LOG_TEXT_MAX]);
    assert_eq!(diagnostic_text(&vec![b'z'; LOG_TEXT_MAX]), vec![b'z'; LOG_TEXT_MAX]);
}

#[test]
fn text_never_holds_a_zero() {
    let buf: Vec<u8> = (0..600u32).map(|i| ((i * 37 + 5) % 256) as u8).collect();
    let text = diagnostic_text(&buf);
    assert!(text.iter().all(|b| *b != 0));
    assert_eq!(&buf[..text.len()], &text[..]);
    assert_eq!(buf[text.len()], 0);
}
