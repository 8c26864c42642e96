use zlib::{compress, uncompress, Error};

#[test]
fn too_short_an_expected_length_fails() {
    let d: Vec<u8> = vec![0xde, 0xad, 0xd0, 0x0d];
    for level in 0..=9 {
        let c = compress(&d, level).unwrap();
        for expected in 0..4 {
            assert!(matches!(
                uncompress(&c, expected),
                Err(Error::DecompressionError { .. })
            ));
        }
    }
}

#[test]
fn one_byte_short_is_the_codecs_buffer_error() {
    let d: Vec<u8> = (0..=255).collect();
    let c = compress(&d, 6).unwrap();
    assert_eq!(uncompress(&c, 255), Err(Error::DecompressionError { code: -5 }));
    assert_eq!(uncompress(&c, 256), Ok(d));
}

#[test]
fn no_room_for_two_bytes_or_more_is_the_codecs_data_error() {
    let c = compress(&[7, 8], 6).unwrap();
    assert_eq!(uncompress(&c, 0), Err(Error::DecompressionError { code: -3 }));
    let c = compress(&[0xde, 0xad, 0xd0, 0x0d], 9).unwrap();
    assert_eq!(uncompress(&c, 0), Err(Error::DecompressionError { code: -3 }));
}

#[test]
fn no_room_for_a_single_byte_is_what_the_codec_lets_pass() {
    for level in 0..=9 {
        let c = compress(&[7], level).unwrap();
        assert_eq!(uncompress(&c, 0), Ok(vec![]));
        assert_eq!(uncompress(&c, 1), Ok(vec![7]));
    }
}

#[test]
fn a_long_source_into_half_the_room_fails() {
    let d = vec![b'z'; 50_000];
    let c = compress(&d, 1).unwrap();
    assert_eq!(uncompress(&c, 25_000), Err(Error::DecompressionError { code: -5 }));
}

#[test]
fn a_failure_carries_the_status() {
    let c = compress(&[1, 2, 3], 6).unwrap();
    assert_eq!(uncompress(&c, 2).unwrap_err().code(), Some(-5));
}
