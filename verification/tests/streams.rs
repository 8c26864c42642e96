use zlib::{compress, uncompress, Error};

#[test]
fn a_stream_made_elsewhere_is_read() {
    let stream = [0x78, 0x9c, 0xcb, 0x48, 0xcd, 0xc9, 0xc9, 0x07, 0x00, 0x06, 0x2c, 0x02, 0x15];
    assert_eq!(uncompress(&stream, 5), Ok(b"hello".to_vec()));
}

#[test]
fn a_stored_stream_is_the_source_in_its_frame() {
    assert_eq!(
        compress(&[7], 0),
        Ok(vec![0x78, 0x01, 0x01, 0x01, 0x00, 0xfe, 0xff, 7, 0x00, 0x08, 0x00, 0x08])
    );
}

#[test]
fn a_stream_starts_with_the_zlib_header() {
    for level in 0..=9 {
        let c = compress(b"header", level).unwrap();
        assert_eq!(c[0], 0x78);
        assert_eq!((u16::from(c[0]) * 256 + u16::from(c[1])) % 31, 0);
    }
}

#[test]
fn a_stream_ends_with_the_checksum_of_the_source() {
    let c = compress(b"hello", 6).unwrap();
    assert_eq!(c[c.len() - 4..], [0x06, 0x2c, 0x02, 0x15]);
}

#[test]
fn bytes_that_are_no_stream_are_a_data_error() {
    assert_eq!(uncompress(&[1, 2, 3, 4], 10), Err(Error::DecompressionError { code: -3 }));
}

#[test]
fn no_bytes_are_no_stream() {
    assert_eq!(uncompress(&[], 10), Err(Error::DecompressionError { code: -3 }));
    assert_eq!(uncompress(&[], 0), Err(Error::DecompressionError { code: -3 }));
}

#[test]
fn a_stream_cut_short_fails() {
    let mut c = compress(b"cut me short", 6).unwrap();
    c.pop();
    assert!(matches!(uncompress(&c, 12), Err(Error::DecompressionError { .. })));
    c.truncate(3);
    assert!(matches!(uncompress(&c, 12), Err(Error::DecompressionError { .. })));
}

#[test]
fn a_damaged_checksum_is_a_data_error() {
    let mut c = compress(b"count on me", 6).unwrap();
    let last = c.len() - 1;
    c[last] ^= 1;
    assert_eq!(uncompress(&c, 11), Err(Error::DecompressionError { code: -3 }));
}

#[test]
fn a_damaged_header_is_a_data_error() {
    let mut c = compress(b"count on me", 6).unwrap();
    c[0] = 0x79;
    assert_eq!(uncompress(&c, 11), Err(Error::DecompressionError { code: -3 }));
}

#[test]
fn what_follows_the_stream_is_not_read() {
    let mut c = compress(b"and then", 6).unwrap();
    c.extend_from_slice(&[0, 1, 2]);
    assert_eq!(uncompress(&c, 8), Ok(b"and then".to_vec()));
}
