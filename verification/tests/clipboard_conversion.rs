use lamco_rdp_server::clipboard::bytes::{read_le32, read_magnitude32};
use lamco_rdp_server::clipboard::convert::{
    is_bitmap_readable, to_ansi_bytes, to_cached_bytes, to_linux_bytes, to_linux_text,
    to_portal_data, to_rdp_data, to_unicode_bytes, trimmed_utf8, CF_DIB, CF_DIBV5, CF_TEXT,
    CF_UNICODETEXT,
};
use lamco_rdp_server::clipboard::error::ExchangeError;
use lamco_rdp_server::utf16::{
    before_zero, decode_utf16_lossy, encode_utf16, from_le_bytes, to_le_bytes,
};

fn utf16_bytes(s: &str) -> Vec<u8> {
    s.encode_utf16().flat_map(|u| u.to_le_bytes()).collect()
}

/// A bitmap of 32 bits per pixel with a plain header.
fn dib(width: i32, height: i32, pixels: &[[u8; 4]]) -> Vec<u8> {
    let mut d = Vec::new();
    d.extend(40u32.to_le_bytes());
    d.extend(width.to_le_bytes());
    d.extend(height.to_le_bytes());
    d.extend(1u16.to_le_bytes());
    d.extend(32u16.to_le_bytes());
    d.extend([0u8; 24]);
    for p in pixels {
        d.extend(p);
    }
    d
}

fn converted(mime: &str, data: Vec<u8>) -> Vec<u8> {
    assert!(is_bitmap_readable(mime, &data));
    match to_portal_data(mime, data) {
        Ok(v) => v,
        Err(_) => panic!("no conversion to {mime}"),
    }
}

#[test]
fn text_goes_out_as_utf16_with_windows_line_endings() {
    let want = {
        let mut w = utf16_bytes("a\r\nb\r\n\u{1f600}");
        w.extend([0, 0]);
        w
    };
    assert_eq!(to_unicode_bytes("a\nb\r\n\u{1f600}"), want);
    assert_eq!(
        to_rdp_data(CF_UNICODETEXT, "text/plain", "a\nb\r\n\u{1f600}".into()).ok(),
        Some(want)
    );
    // Null characters are dropped.
    assert_eq!(to_unicode_bytes("a\0b"), vec![b'a', 0, b'b', 0, 0, 0]);
    // Bytes that are no UTF-8 become the replacement character.
    assert_eq!(
        to_rdp_data(CF_UNICODETEXT, "text/plain", vec![b'a', 0xff]).ok(),
        Some(vec![b'a', 0, 0xfd, 0xff, 0, 0])
    );
}

#[test]
fn text_comes_in_with_linux_line_endings() {
    let mut d = utf16_bytes("x\r\ny\rz");
    d.extend([0, 0, b'q', 0]);
    assert_eq!(to_linux_text(&d), b"x\ny\rz");
    assert_eq!(converted("text/plain;charset=utf-8", d.clone()), b"x\ny\rz");
    assert_eq!(converted("text/html", d), b"x\ny\rz");
    assert_eq!(converted("text/plain", vec![b'x']), b"x");
    assert_eq!(to_linux_bytes("a\r\nb\0c"), b"a\nbc");
    assert_eq!(converted("text/rtf", b"{\\rtf\r\n}\xff".to_vec()), "{\\rtf\n}\u{fffd}".as_bytes());
    assert_eq!(converted("application/octet-stream", vec![1, 2]), vec![1, 2]);
}

#[test]
fn plain_text_survives_the_way_out_and_back() {
    for s in ["", "plain", "two\nlines\n", "\u{e9}\u{1f600}\u{fffd}"] {
        assert_eq!(to_linux_text(&to_unicode_bytes(s)), s.as_bytes());
    }
}

#[test]
fn cached_text_is_kept_as_utf16() {
    let cached = to_cached_bytes("h\u{e9}");
    assert_eq!(cached, vec![b'h', 0, 0xe9, 0, 0, 0]);
    assert_eq!(to_ansi_bytes(&cached), b"h\xc3\xa9\0");
    assert_eq!(to_ansi_bytes(&[]), b"\0");
    assert_eq!(trimmed_utf8("a\0b\0\0"), b"a\0b");
    assert_eq!(CF_TEXT, 1);
}

#[test]
fn utf16_pairs_and_strays() {
    for s in ["", "abc", "\u{1f600}\u{10ffff}\u{ffff}"] {
        let u = encode_utf16(s);
        assert_eq!(u, s.encode_utf16().collect::<Vec<u16>>());
        assert_eq!(decode_utf16_lossy(&u), s);
        assert_eq!(from_le_bytes(&to_le_bytes(&u)), u);
    }
    let strays = [0xd83d, 0x61, 0xde00, 0xd800];
    assert_eq!(decode_utf16_lossy(&strays), String::from_utf16_lossy(&strays));
    assert_eq!(before_zero(&[5, 0, 6]), vec![5]);
    assert_eq!(before_zero(&[5, 6]), vec![5, 6]);
    // A last byte without a partner is dropped.
    assert_eq!(from_le_bytes(&[1, 2, 3]), vec![0x0201]);
}

#[test]
fn numbers_are_read_low_byte_first() {
    assert_eq!(read_le32(&[9, 1, 2, 3, 4], 1), 0x0403_0201);
    assert_eq!(read_magnitude32(&(-3i32).to_le_bytes(), 0), 3);
    assert_eq!(read_magnitude32(&i32::MIN.to_le_bytes(), 0), 0x8000_0000);
}

#[test]
fn pictures_are_converted_both_ways() {
    let red = [0, 0, 255, 255];
    let green = [0, 255, 0, 255];
    let d = dib(2, 1, &[red, green]);
    let png = converted("image/png", d.clone());
    assert_eq!(&png[..8], b"\x89PNG\r\n\x1a\n");
    let back = to_rdp_data(CF_DIB, "image/png", png.clone()).ok().unwrap();
    assert_eq!(read_le32(&back, 0), 40);
    assert_eq!(read_magnitude32(&back, 4), 2);
    assert_eq!(&back[40..44], &red);
    assert_eq!(&back[44..48], &green);

    let v5 = to_rdp_data(CF_DIBV5, "image/png", png.clone()).ok().unwrap();
    assert_eq!(read_le32(&v5, 0), 124);
    let png_again = converted("image/png", v5.clone());
    assert_eq!(&png_again[..4], b"\x89PNG");

    let jpeg = converted("image/jpeg", d.clone());
    assert_eq!(&jpeg[..2], &[0xff, 0xd8]);
    let jpeg_v5 = converted("image/jpeg", v5);
    assert_eq!(&jpeg_v5[..2], &[0xff, 0xd8]);
    let from_jpeg = to_rdp_data(CF_DIB, "image/jpeg", jpeg.clone()).ok().unwrap();
    assert_eq!(read_le32(&from_jpeg, 0), 40);
    let v5_from_jpeg = to_rdp_data(CF_DIBV5, "image/jpeg", jpeg).ok().unwrap();
    assert_eq!(read_le32(&v5_from_jpeg, 0), 124);

    let bmp = converted("image/bmp", d.clone());
    assert_eq!(&bmp[..2], b"BM");
    assert_eq!(read_le32(&bmp, 2) as usize, bmp.len());
    assert_eq!(read_le32(&bmp, 10), 54);
    assert_eq!(&bmp[14..], &d[..]);
    assert_eq!(to_rdp_data(CF_DIB, "image/x-bmp", bmp).ok(), Some(d));
    // Other formats and types are passed on.
    assert_eq!(to_rdp_data(CF_DIB, "image/gif", vec![1]).ok(), Some(vec![1]));
    assert_eq!(to_rdp_data(CF_DIBV5, "image/bmp", vec![1]).ok(), Some(vec![1]));
    assert_eq!(to_rdp_data(99, "image/png", png.clone()).ok(), Some(png));
}

#[test]
fn pictures_that_cannot_be_read() {
    for mime in ["image/png", "image/jpeg"] {
        match to_portal_data(mime, vec![1, 2, 3]) {
            Err(ExchangeError::ImageDecode(m)) => assert_eq!(m, "Data too small for bitmap"),
            _ => panic!("three bytes are no bitmap"),
        }
        assert!(matches!(
            to_portal_data(mime, vec![40, 0, 0, 0, 1]),
            Err(ExchangeError::Core(_))
        ));
    }
    assert!(matches!(
        to_portal_data("image/bmp", vec![0; 39]),
        Err(ExchangeError::Core(_))
    ));
    assert!(matches!(
        to_rdp_data(CF_DIB, "image/png", vec![0; 20]),
        Err(ExchangeError::Core(_))
    ));
    assert!(matches!(
        to_rdp_data(CF_DIB, "image/bmp", b"XM000000000000".to_vec()),
        Err(ExchangeError::Core(_))
    ));
}

#[test]
fn sizes_beyond_a_machine_word_are_noticed() {
    let mut d = dib(i32::MAX, i32::MAX, &[[0; 4]]);
    assert!(is_bitmap_readable("text/plain", &d));
    if usize::BITS == 64 {
        assert!(is_bitmap_readable("image/png", &d));
    } else {
        assert!(!is_bitmap_readable("image/png", &d));
    }
    // 24 bits per pixel: the row no longer fits.
    d[14] = 24;
    assert!(!is_bitmap_readable("image/png", &d));
    assert!(!is_bitmap_readable("image/jpeg", &d));
    assert!(is_bitmap_readable("image/png", &dib(2, 1, &[[0; 4]; 2])));
}
