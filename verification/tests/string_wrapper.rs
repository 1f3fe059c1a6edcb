use string_wrapper::{starts_well_formed_utf8_sequence, utf8_byte_length, StringWrapper};

#[test]
fn it_works() {
    let mut s = StringWrapper::new([0; 10]);
    assert_eq!(s.as_text(), "");
    assert_eq!(s.len(), 0);
    assert_eq!(s.capacity(), 10);
    assert_eq!(s.extra_capacity(), 10);

    assert_eq!(s.as_text(), "");
    assert_eq!(s.len(), 0);
    assert_eq!(s.capacity(), 10);
    assert_eq!(s.extra_capacity(), 10);

    s.push_str("a");
    assert_eq!(s.as_text(), "a");
    assert_eq!(s.len(), 1);
    assert_eq!(s.capacity(), 10);
    assert_eq!(s.extra_capacity(), 9);

    assert_eq!(s.push('é'), Ok(()));
    assert_eq!(s.as_text(), "aé");
    assert_eq!(s.len(), 3);
    assert_eq!(s.capacity(), 10);
    assert_eq!(s.extra_capacity(), 7);

    assert_eq!(s.push_partial_str("~~~"), Ok(()));
    assert_eq!(s.as_text(), "aé~~~");
    assert_eq!(s.len(), 6);
    assert_eq!(s.capacity(), 10);
    assert_eq!(s.extra_capacity(), 4);

    assert_eq!(s.push_partial_str("hello"), Err(4));
    assert_eq!(s.as_text(), "aé~~~hell");
    assert_eq!(s.len(), 10);
    assert_eq!(s.capacity(), 10);
    assert_eq!(s.extra_capacity(), 0);

    s.truncate(6);
    assert_eq!(s.as_text(), "aé~~~");
    assert_eq!(s.len(), 6);
    assert_eq!(s.capacity(), 10);
    assert_eq!(s.extra_capacity(), 4);

    assert_eq!(s.push_partial_str("_🌠"), Err(1));
    assert_eq!(s.as_text(), "aé~~~_");
    assert_eq!(s.len(), 7);
    assert_eq!(s.capacity(), 10);
    assert_eq!(s.extra_capacity(), 3);

    assert_eq!(s.push('🌠'), Err(()));
    assert_eq!(s.as_text(), "aé~~~_");
    assert_eq!(s.len(), 7);
    assert_eq!(s.capacity(), 10);
    assert_eq!(s.extra_capacity(), 3);

    let buffer: [u8; 10] = s.clone().into_buffer();
    assert_eq!(&buffer, b"a\xC3\xA9~~~_ell");
    assert_eq!(format!("{}", s.as_text()), "aé~~~_");
    assert_eq!(format!("{:?}", s.as_text()), "\"aé~~~_\"");

    assert_eq!(s.push_partial_str("ô!?"), Err(3));
    assert_eq!(s.as_text(), "aé~~~_ô!");
    assert_eq!(s.len(), 10);
    assert_eq!(s.capacity(), 10);
    assert_eq!(s.extra_capacity(), 0);
}

#[test]
fn new_buffer_is_empty() {
    let s = StringWrapper::new([0; 10]);
    assert_eq!(s.len(), 0);
    assert!(s.is_empty());
    assert_eq!(s.as_text(), "");
}

#[test]
fn push_single_ascii_byte() {
    let mut s = StringWrapper::new([0; 10]);
    assert_eq!(s.push('a'), Ok(()));
    assert_eq!(s.as_text(), "a");
    assert_eq!(s.len(), 1);
    assert!(!s.is_empty());
    assert_eq!(s.extra_capacity(), 9);
}

#[test]
fn push_two_byte_char() {
    let mut s = StringWrapper::new([0; 10]);
    s.push_str("a");
    assert_eq!(s.push('é'), Ok(()));
    assert_eq!(s.as_text(), "aé");
    assert_eq!(s.len(), 3);
}

#[test]
fn push_failure_changes_nothing() {
    let mut s = StringWrapper::new([0; 1]);
    assert_eq!(s.push('é'), Err(()));
    assert_eq!(s.len(), 0);
    assert_eq!(s.as_text(), "");
    assert_eq!(s.push('a'), Ok(()));
    assert_eq!(s.as_text(), "a");
}

#[test]
fn partial_push_cuts_ascii_at_capacity() {
    let mut s = StringWrapper::new([0; 4]);
    assert_eq!(s.push_partial_str("hello"), Err(4));
    assert_eq!(s.as_text(), "hell");
    assert_eq!(s.extra_capacity(), 0);
}

#[test]
fn partial_push_backs_up_to_char_boundary() {
    let mut s = StringWrapper::new([0; 1]);
    assert_eq!(s.push_partial_str("é"), Err(0));
    assert_eq!(s.as_text(), "");
    assert_eq!(s.len(), 0);

    let mut t = StringWrapper::new([0; 3]);
    assert_eq!(t.push_partial_str("aéé"), Err(3));
    assert_eq!(t.as_text(), "aé");
    assert_eq!(t.len(), 3);
}

#[test]
fn round_trip() {
    let mut s = StringWrapper::new([0; 10]);
    s.push_str("hello");
    assert_eq!(s.as_text(), "hello");

    let mut v = StringWrapper::new(vec![0u8; 9]);
    v.push_str("déjà vu");
    assert_eq!(v.as_text(), "déjà vu");
    assert_eq!(v.extra_capacity(), 0);
}

#[test]
fn truncate_to_boundary() {
    let mut s = StringWrapper::new([0; 10]);
    s.push_str("aé~");
    s.truncate(4);
    assert_eq!(s.as_text(), "aé~");
    s.truncate(3);
    assert_eq!(s.as_text(), "aé");
    s.truncate(1);
    assert_eq!(s.as_text(), "a");
    s.truncate(0);
    assert_eq!(s.as_text(), "");
}

#[test]
fn truncate_boundary_bytes_are_detected() {
    // The second byte of "é"'s encoding is a continuation byte: it cannot
    // start a sequence, so truncating there is ruled out by contract.
    let encoding_of_e_acute = [0xC3u8, 0xA9u8];
    assert!(starts_well_formed_utf8_sequence(encoding_of_e_acute[0]));
    assert!(!starts_well_formed_utf8_sequence(encoding_of_e_acute[1]));
    assert!(starts_well_formed_utf8_sequence(b'a'));
    assert!(starts_well_formed_utf8_sequence(0xF0));
    assert!(!starts_well_formed_utf8_sequence(0xBF));
}

#[test]
fn zero_capacity_buffer() {
    let mut s = StringWrapper::new([0u8; 0]);
    assert_eq!(s.capacity(), 0);
    assert_eq!(s.push('a'), Err(()));
    assert_eq!(s.push_partial_str("x"), Err(0));
    assert_eq!(s.as_text(), "");
}

#[test]
fn encoded_lengths() {
    assert_eq!(utf8_byte_length('a'), 1);
    assert_eq!(utf8_byte_length('é'), 2);
    assert_eq!(utf8_byte_length('\u{20ac}'), 3);
    assert_eq!(utf8_byte_length('🌠'), 4);
}

#[test]
fn from_raw_parts_reads_back() {
    let buffer = vec![b'a', b'b', 0, 0];
    let s = StringWrapper::from_raw_parts(buffer, 2);
    assert_eq!(s.as_text(), "ab");
    assert_eq!(s.capacity(), 4);
    assert_eq!(s.extra_capacity(), 2);
}

#[test]
fn boxed_backing_storage() {
    let mut s = StringWrapper::new(Box::new([0u8; 8]));
    assert_eq!(s.capacity(), 8);
    s.push_str("boxed");
    assert_eq!(s.as_text(), "boxed");
    let buffer: Box<[u8; 8]> = s.into_buffer();
    assert_eq!(&buffer[..5], b"boxed");
}

#[test]
fn buffer_exposes_stale_bytes() {
    let mut s = StringWrapper::new([b'x'; 4]);
    s.push_str("ab");
    assert_eq!(s.buffer(), b"abxx");
    assert_eq!(s.as_text(), "ab");
    let buffer = s.into_buffer();
    assert_eq!(&buffer, b"abxx");
}
