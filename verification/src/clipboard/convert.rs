//! Conversion of clipboard data between the formats of the remote client and
//! the MIME types of the compositor.

use vstd::prelude::*;
use vstd::string::StrSliceExecFns;
use vstd::utf8::*;
use crate::clipboard::bytes::{le32, read_le32, read_magnitude32};
use crate::clipboard::core_calls::{
    bmp_dib, dib_bmp, dib_jpeg, dib_png, dib_readable, dibv5_jpeg, dibv5_png,
    dibv5_readable, is_bitmap32, jpeg_dib, jpeg_dibv5, masks_set, png_dib, png_dibv5, read_utf8_lossy,
    sizes_fit, utf8_lossy,
};
use crate::clipboard::error::ExchangeError;
use crate::clipboard::line_endings::{
    is_plain_unix, line_endings_come_back, no_nul_remains, single_lines_stay, unix_text,
    windows_lines_end_in_two, windows_text,
};
use crate::text::{same_text, starts_with};
use crate::utf16::{
    ascii_units, before_zero, decode_lossy, decode_utf16_lossy, encode_char, encode_utf16, encoded_text_reads_back,
    from_le_bytes, le_bytes, le_bytes_read_back, terminator_is_dropped, to_le_bytes,
    units_of, until_zero, utf16,
};

verus! {

/// `CF_TEXT`: text in one byte per character.
pub const CF_TEXT: u32 = 1;

/// `CF_DIB`: a bitmap with a plain header.
pub const CF_DIB: u32 = 8;

/// `CF_UNICODETEXT`: UTF-16 text.
pub const CF_UNICODETEXT: u32 = 13;

/// `CF_DIBV5`: a bitmap with a header that describes its colours.
pub const CF_DIBV5: u32 = 17;

/// Text as `CF_UNICODETEXT` carries it: UTF-16 in little-endian bytes, with
/// Windows line endings and a terminating zero.
pub open spec fn unicode_bytes(s: Seq<char>) -> Seq<u8> {
    le_bytes(utf16(windows_text(s))) + seq![0u8, 0u8]
}

/// The UTF-8 of the text that `CF_UNICODETEXT` bytes hold before their first
/// zero, with Linux line endings.
pub open spec fn linux_text(d: Seq<u8>) -> Seq<u8> {
    encode_utf8(unix_text(decode_lossy(until_zero(units_of(d)))))
}

/// What the remote client gets for `format_id` when the compositor holds `d` as
/// `mime`, or nothing where an image cannot be converted.
pub open spec fn rdp_data(format_id: u32, mime: Seq<char>, d: Seq<u8>) -> Option<Seq<u8>> {
    if format_id == CF_UNICODETEXT {
        Some(unicode_bytes(utf8_lossy(d)))
    } else if format_id == CF_DIB && "image/png"@.is_prefix_of(mime) {
        png_dib(d)
    } else if format_id == CF_DIB && "image/jpeg"@.is_prefix_of(mime) {
        jpeg_dib(d)
    } else if format_id == CF_DIB && ("image/bmp"@.is_prefix_of(mime)
        || "image/x-bmp"@.is_prefix_of(mime)) {
        bmp_dib(d)
    } else if format_id == CF_DIBV5 && "image/png"@.is_prefix_of(mime) {
        png_dibv5(d)
    } else if format_id == CF_DIBV5 && "image/jpeg"@.is_prefix_of(mime) {
        jpeg_dibv5(d)
    } else {
        Some(d)
    }
}

/// What the compositor gets for `mime` when the remote client sent `d`, or
/// nothing where an image cannot be converted.
pub open spec fn portal_data(mime: Seq<char>, d: Seq<u8>) -> Option<Seq<u8>> {
    if "image/png"@.is_prefix_of(mime) {
        if d.len() < 4 {
            None
        } else if le32(d, 0) == 40 {
            dib_png(d)
        } else {
            dibv5_png(d)
        }
    } else if "image/jpeg"@.is_prefix_of(mime) {
        if d.len() < 4 {
            None
        } else if le32(d, 0) == 124 {
            dibv5_jpeg(d)
        } else {
            dib_jpeg(d)
        }
    } else if "image/bmp"@.is_prefix_of(mime) || "image/x-bmp"@.is_prefix_of(mime) {
        dib_bmp(d)
    } else if mime == "text/rtf"@ || mime == "application/rtf"@ {
        Some(encode_utf8(unix_text(utf8_lossy(d))))
    } else if ("text/plain"@.is_prefix_of(mime) || "text/html"@.is_prefix_of(mime)) && d.len() >= 2 {
        Some(linux_text(d))
    } else {
        Some(d)
    }
}

/// An image was asked for, and the data is too short to hold a bitmap header.
pub open spec fn too_small_for_bitmap(mime: Seq<char>, d: Seq<u8>) -> bool {
    &&& "image/png"@.is_prefix_of(mime) || "image/jpeg"@.is_prefix_of(mime)
    &&& d.len() < 4
}

/// The bitmap that an image MIME type is converted from can be read: the sizes
/// in its header fit in a machine word.
pub open spec fn bitmap_readable(mime: Seq<char>, d: Seq<u8>) -> bool {
    d.len() >= 4 ==> {
        &&& "image/png"@.is_prefix_of(mime) ==> if le32(d, 0) == 40 {
            dib_readable(d)
        } else {
            dibv5_readable(d)
        }
        &&& !"image/png"@.is_prefix_of(mime) && "image/jpeg"@.is_prefix_of(mime) ==> if le32(d, 0)
            == 124 {
            dibv5_readable(d)
        } else {
            dib_readable(d)
        }
    }
}

/// `s` without the characters `c` at its end.
pub open spec fn trim_end(s: Seq<char>, c: char) -> Seq<char>
    decreases s.len(),
{
    if s.len() > 0 && s.last() == c {
        trim_end(s.drop_last(), c)
    } else {
        s
    }
}

/// Cached UTF-16 bytes as `CF_TEXT` carries them: the text without the zeros at
/// its end, and one terminating zero.
pub open spec fn ansi_bytes(cached: Seq<u8>) -> Seq<u8> {
    encode_utf8(trim_end(decode_lossy(units_of(cached)), '\0')).push(0)
}

/// Text that a clipboard manager handed over, as it is cached: UTF-16 bytes with
/// a terminating zero.
pub open spec fn cached_bytes(s: Seq<char>) -> Seq<u8> {
    le_bytes(utf16(s).push(0))
}

/// `text` as `CF_UNICODETEXT` carries it.
pub fn to_unicode_bytes(text: &str) -> (r: Vec<u8>)
    ensures
        r@ == unicode_bytes(text@),
{
    let sanitized = lamco_clipboard_core::sanitize::sanitize_text_for_windows(text);
    let units = encode_utf16(sanitized.as_str());
    let mut bytes = to_le_bytes(&units);
    bytes.push(0);
    bytes.push(0);
    assert(bytes@ =~= unicode_bytes(text@));
    bytes
}

/// `text` with Linux line endings and without null characters, as UTF-8.
pub fn to_linux_bytes(text: &str) -> (r: Vec<u8>)
    ensures
        r@ == encode_utf8(unix_text(text@)),
{
    let sanitized = lamco_clipboard_core::sanitize::sanitize_text_for_linux(text);
    sanitized.as_str().as_bytes_vec()
}

/// The UTF-8 of the text that `CF_UNICODETEXT` bytes hold.
pub fn to_linux_text(data: &[u8]) -> (r: Vec<u8>)
    ensures
        r@ == linux_text(data@),
{
    let units = from_le_bytes(data);
    let before = before_zero(&units);
    let text = decode_utf16_lossy(&before);
    to_linux_bytes(text.as_str())
}

fn core_result(r: Result<Vec<u8>, lamco_clipboard_core::ClipboardError>) -> (q: Result<
    Vec<u8>,
    ExchangeError,
>)
    ensures
        r matches Ok(v) ==> q matches Ok(w) && w@ == v@,
        r matches Err(e) ==> q == Err::<Vec<u8>, ExchangeError>(ExchangeError::Core(e)),
{
    match r {
        Ok(v) => Ok(v),
        Err(e) => Err(ExchangeError::Core(e)),
    }
}

/// Converts data that the compositor holds for the remote client.
pub fn to_rdp_data(format_id: u32, mime: &str, data: Vec<u8>) -> (r: Result<Vec<u8>, ExchangeError>)
    ensures
        r matches Ok(v) ==> rdp_data(format_id, mime@, data@) == Some(v@),
        r matches Err(e) ==> rdp_data(format_id, mime@, data@) is None && e is Core,
        forall|s: Seq<char>|
            format_id == 13 && data@ == #[trigger] encode_utf8(s) ==> (r matches Ok(v)
                && decode_lossy(until_zero(units_of(v@))) == windows_text(s)),
        format_id == 8 && ("image/png"@.is_prefix_of(mime@) || "image/jpeg"@.is_prefix_of(mime@))
            ==> (r matches Ok(v) ==> is_bitmap32(v@, 40)),
        format_id == 17 && ("image/png"@.is_prefix_of(mime@) || "image/jpeg"@.is_prefix_of(mime@))
            ==> (r matches Ok(v) ==> is_bitmap32(v@, 124)),
{
    if format_id == CF_UNICODETEXT {
        let text = read_utf8_lossy(&data);
        proof {
            lemma_unicode_reads_back(text@);
            assert forall|s: Seq<char>| data@ == #[trigger] encode_utf8(s) implies text@ == s by {
                encode_utf8_valid_utf8(s);
                encode_utf8_decode_utf8(s);
            }
        }
        Ok(to_unicode_bytes(text.as_str()))
    } else if format_id == CF_DIB {
        if starts_with(mime, "image/png") {
            core_result(lamco_clipboard_core::image::png_to_dib(&data))
        } else if starts_with(mime, "image/jpeg") {
            core_result(lamco_clipboard_core::image::jpeg_to_dib(&data))
        } else if starts_with(mime, "image/bmp") || starts_with(mime, "image/x-bmp") {
            core_result(lamco_clipboard_core::image::bmp_to_dib(&data))
        } else {
            Ok(data)
        }
    } else if format_id == CF_DIBV5 {
        if starts_with(mime, "image/png") {
            core_result(lamco_clipboard_core::image::png_to_dibv5(&data))
        } else if starts_with(mime, "image/jpeg") {
            core_result(lamco_clipboard_core::image::jpeg_to_dibv5(&data))
        } else {
            Ok(data)
        }
    } else {
        Ok(data)
    }
}

fn too_small() -> (r: ExchangeError)
    ensures
        r matches ExchangeError::ImageDecode(m) && m@ == "Data too small for bitmap"@,
{
    ExchangeError::ImageDecode("Data too small for bitmap".to_owned())
}

/// Converts data that the remote client sent for the compositor.
pub fn to_portal_data(mime: &str, data: Vec<u8>) -> (r: Result<Vec<u8>, ExchangeError>)
    requires
        bitmap_readable(mime@, data@),
    ensures
        r matches Ok(v) ==> portal_data(mime@, data@) == Some(v@),
        r matches Err(e) ==> portal_data(mime@, data@) is None && (if too_small_for_bitmap(
            mime@,
            data@,
        ) {
            e matches ExchangeError::ImageDecode(m) && m@ == "Data too small for bitmap"@
        } else {
            e is Core
        }),
{
    if starts_with(mime, "image/png") {
        if data.len() < 4 {
            return Err(too_small());
        }
        if read_le32(&data, 0) == 40 {
            core_result(lamco_clipboard_core::image::dib_to_png(&data))
        } else {
            core_result(lamco_clipboard_core::image::dibv5_to_png(&data))
        }
    } else if starts_with(mime, "image/jpeg") {
        if data.len() < 4 {
            return Err(too_small());
        }
        if read_le32(&data, 0) == 124 {
            core_result(lamco_clipboard_core::image::dibv5_to_jpeg(&data))
        } else {
            core_result(lamco_clipboard_core::image::dib_to_jpeg(&data))
        }
    } else if starts_with(mime, "image/bmp") || starts_with(mime, "image/x-bmp") {
        core_result(lamco_clipboard_core::image::dib_to_bmp(&data))
    } else if same_text(mime, "text/rtf") || same_text(mime, "application/rtf") {
        let text = read_utf8_lossy(&data);
        Ok(to_linux_bytes(text.as_str()))
    } else if (starts_with(mime, "text/plain") || starts_with(mime, "text/html")) && data.len()
        >= 2 {
        Ok(to_linux_text(&data))
    } else {
        Ok(data)
    }
}

fn sizes_do_fit(d: &[u8]) -> (r: bool)
    requires
        d@.len() >= 16,
    ensures
        r == sizes_fit(d@),
{
    let w: u128 = read_magnitude32(d, 4) as u128;
    let h: u128 = read_magnitude32(d, 8) as u128;
    let bits: u32 = d[14] as u32 + 0x100 * (d[15] as u32);
    assert(w * h * 4 <= 0xffff_ffff_ffff_ffff_ffffu128) by (nonlinear_arith)
        requires
            w <= 0xffff_ffff,
            h <= 0xffff_ffff,
    ;
    assert(0 <= w * h) by (nonlinear_arith)
        requires
            w >= 0,
            h >= 0,
    ;
    let row: u128 = (3 * w + 3) / 4 * 4;
    assert(row * h <= 0xffff_ffff_ffff_ffff_ffffu128) by (nonlinear_arith)
        requires
            row <= 0x4_0000_0000,
            h <= 0xffff_ffff,
    ;
    if bits == 32 {
        w * h * 4 <= usize::MAX as u128
    } else if bits == 24 {
        3 * w <= 0xffff_fffc && row * h <= usize::MAX as u128
    } else {
        true
    }
}

fn dib_is_readable(d: &[u8]) -> (r: bool)
    ensures
        r == dib_readable(d@),
{
    if d.len() < 40 {
        return true;
    }
    let header: u32 = read_le32(d, 0);
    header < 40 || header as usize >= d.len() || sizes_do_fit(d)
}

fn masks_are_set(d: &[u8]) -> (r: bool)
    requires
        d@.len() >= 124,
    ensures
        r == masks_set(d@),
{
    let w: u128 = read_magnitude32(d, 4) as u128;
    let h: u128 = read_magnitude32(d, 8) as u128;
    let bits: u32 = d[14] as u32 + 0x100 * (d[15] as u32);
    assert(w * h * 4 <= 0xffff_ffff_ffff_ffff_ffffu128) by (nonlinear_arith)
        requires
            w <= 0xffff_ffff,
            h <= 0xffff_ffff,
    ;
    assert(0 <= w * h) by (nonlinear_arith)
        requires
            w >= 0,
            h >= 0,
    ;
    if bits == 32 && read_le32(d, 16) == 3 && w > 0 && h > 0 && (d.len() - 124) as u128 >= w * h
        * 4 {
        read_le32(d, 40) != 0 && read_le32(d, 44) != 0 && read_le32(d, 48) != 0
    } else {
        true
    }
}

fn dibv5_is_readable(d: &[u8]) -> (r: bool)
    ensures
        r == dibv5_readable(d@),
{
    if d.len() < 4 {
        return true;
    }
    let header: u32 = read_le32(d, 0);
    if header == 40 {
        dib_is_readable(d)
    } else if header == 124 && d.len() >= 124 {
        sizes_do_fit(d) && masks_are_set(d)
    } else {
        true
    }
}

/// Whether the bitmap that `mime` is converted from can be read.
pub fn is_bitmap_readable(mime: &str, data: &[u8]) -> (r: bool)
    ensures
        r == bitmap_readable(mime@, data@),
{
    if data.len() < 4 {
        return true;
    }
    let header: u32 = read_le32(data, 0);
    if starts_with(mime, "image/png") {
        if header == 40 {
            dib_is_readable(data)
        } else {
            dibv5_is_readable(data)
        }
    } else if starts_with(mime, "image/jpeg") {
        if header == 124 {
            dibv5_is_readable(data)
        } else {
            dib_is_readable(data)
        }
    } else {
        true
    }
}

/// `s` without the null characters at its end, as UTF-8.
pub fn trimmed_utf8(s: &str) -> (r: Vec<u8>)
    ensures
        r@ == encode_utf8(trim_end(s@, '\0')),
{
    let chars = crate::text::chars_of(s);
    let mut n: usize = chars.len();
    assert(chars@.take(n as int) =~= chars@);
    while n > 0 && chars[n - 1] == '\0'
        invariant
            n <= chars.len(),
            trim_end(chars@.take(n as int), '\0') == trim_end(chars@, '\0'),
        decreases n,
    {
        assert(chars@.take(n as int).drop_last() =~= chars@.take(n - 1));
        n -= 1;
    }
    let kept = crate::text::text_of(&chars[0..n]);
    assert(kept@ =~= chars@.take(n as int));
    kept.as_str().as_bytes_vec()
}

/// Cached UTF-16 bytes as `CF_TEXT` carries them.
pub fn to_ansi_bytes(cached: &[u8]) -> (r: Vec<u8>)
    ensures
        r@ == ansi_bytes(cached@),
{
    let text = ironrdp_pdu::utils::from_utf16_bytes(cached);
    let mut bytes = trimmed_utf8(text.as_str());
    bytes.push(0);
    bytes
}

/// Text that a clipboard manager handed over, as it is cached.
pub fn to_cached_bytes(content: &str) -> (r: Vec<u8>)
    ensures
        r@ == cached_bytes(content@),
{
    let mut units = encode_utf16(content);
    units.push(0);
    to_le_bytes(&units)
}

proof fn lemma_utf16_no_zero(s: Seq<char>)
    requires
        forall|i: int| 0 <= i < s.len() ==> s[i] != '\0',
    ensures
        forall|i: int| 0 <= i < utf16(s).len() ==> utf16(s)[i] != 0,
    decreases s.len(),
{
    if s.len() > 0 {
        lemma_utf16_no_zero(s.drop_last());
        let c = s.last();
        char_is_scalar(c);
        char_u32_cast(c, c as u32);
        assert(c != '\0');
        assert(c as u32 != 0);
        assert(encode_char(c)[0] != 0);
        if encode_char(c).len() == 2 {
            assert(encode_char(c)[1] != 0);
        }
        let a = utf16(s.drop_last());
        assert forall|i: int| 0 <= i < utf16(s).len() implies utf16(s)[i] != 0 by {
            if i < a.len() {
                assert(utf16(s)[i] == a[i]);
            } else {
                assert(utf16(s)[i] == encode_char(c)[i - a.len()]);
            }
        }
    }
}

proof fn lemma_units_of_terminated(u: Seq<u16>)
    ensures
        units_of(le_bytes(u) + seq![0u8, 0u8]) == u.push(0),
{
    let a = le_bytes(u);
    let b = a + seq![0u8, 0u8];
    le_bytes_read_back(u);
    assert(units_of(b).len() == u.len() + 1);
    assert forall|i: int| 0 <= i < u.len() + 1 implies #[trigger] units_of(b)[i] == u.push(0)[i] by {
        if i < u.len() {
            assert(units_of(a)[i] == u[i]);
            assert(b[2 * i] == a[2 * i]);
            assert(b[2 * i + 1] == a[2 * i + 1]);
        } else {
            assert(b[2 * i] == 0);
            assert(b[2 * i + 1] == 0);
        }
    }
    assert(units_of(b) =~= u.push(0));
}

/// Text without carriage returns and null characters that is sent to the remote
/// client as `CF_UNICODETEXT` and pasted back arrives as the same UTF-8.
pub proof fn unicode_text_comes_back(s: Seq<char>)
    requires
        is_plain_unix(s),
    ensures
        linux_text(unicode_bytes(s)) == encode_utf8(s),
{
    lemma_unicode_reads_back(s);
    line_endings_come_back(s);
}

proof fn lemma_unicode_reads_back(s: Seq<char>)
    ensures
        decode_lossy(until_zero(units_of(unicode_bytes(s)))) == windows_text(s),
        units_of(unicode_bytes(s)) == utf16(windows_text(s)).push(0),
{
    let w = windows_text(s);
    no_nul_remains(crate::clipboard::line_endings::lf_to_crlf(
        crate::clipboard::line_endings::crlf_to_lf(s),
    ));
    lemma_utf16_no_zero(w);
    lemma_units_of_terminated(utf16(w));
    terminator_is_dropped(utf16(w), Seq::empty());
    assert(utf16(w) + seq![0u16] + Seq::<u16>::empty() =~= utf16(w).push(0));
    encoded_text_reads_back(w);
}

proof fn lemma_utf16_push(s: Seq<char>, c: char)
    ensures
        utf16(s.push(c)) == utf16(s) + encode_char(c),
{
    assert(s.push(c).drop_last() =~= s);
}

/// Text that a clipboard manager handed over is served as `CF_TEXT` with only
/// the zeros at its end lost.
pub proof fn cached_text_is_served(s: Seq<char>)
    ensures
        ansi_bytes(cached_bytes(s)) == encode_utf8(trim_end(s, '\0')).push(0),
{
    let t = s.push('\0');
    lemma_utf16_push(s, '\0');
    assert(utf16(t) =~= utf16(s).push(0));
    le_bytes_read_back(utf16(t));
    encoded_text_reads_back(t);
    assert(t.drop_last() =~= s);
    assert(trim_end(t, '\0') == trim_end(s, '\0'));
}

/// Whatever MIME type text is held as, the remote client that asks for Unicode text
/// reads it with a carriage return before each line feed and without null characters,
/// up to a zero unit that ends it. Pasted back it is the text as Linux programs
/// expect it.
pub proof fn unicode_requests_get_the_text(mime: Seq<char>, d: Seq<u8>)
    ensures
        rdp_data(13, mime, d) matches Some(b) && {
            &&& b.len() % 2 == 0
            &&& decode_lossy(until_zero(units_of(b))) == windows_text(utf8_lossy(d))
            &&& until_zero(units_of(b)).push(0) == units_of(b)
            &&& linux_text(b) == encode_utf8(unix_text(utf8_lossy(d)))
            &&& is_plain_unix(utf8_lossy(d)) ==> linux_text(b) == encode_utf8(utf8_lossy(d))
        },
{
    let s = utf8_lossy(d);
    let w = windows_text(s);
    lemma_unicode_reads_back(s);
    windows_lines_end_in_two(s);
    lemma_utf16_no_zero(w);
    terminator_is_dropped(utf16(w), Seq::empty());
    assert(utf16(w) + seq![0u16] + Seq::<u16>::empty() =~= utf16(w).push(0));
    if is_plain_unix(s) {
        unicode_text_comes_back(s);
    }
}

/// Text on one line of characters below U+0080 reaches the remote client as two bytes
/// for each character, the second of them zero, and two zeros behind the last.
pub proof fn ascii_text_is_spelled_out(mime: Seq<char>, d: Seq<u8>)
    requires
        is_plain_unix(utf8_lossy(d)),
        !utf8_lossy(d).contains('\n'),
        forall|i: int| 0 <= i < utf8_lossy(d).len() ==> (#[trigger] utf8_lossy(d)[i]) as u32 <= 0x7f,
    ensures
        ({
            let s = utf8_lossy(d);
            let b = rdp_data(13, mime, d)->0;
            &&& b.len() == 2 * s.len() + 2
            &&& forall|i: int|
                0 <= i < s.len() ==> b[2 * i] == (#[trigger] s[i]) as u32 && b[2 * i + 1] == 0
            &&& b[b.len() - 2] == 0 && b[b.len() - 1] == 0
        }),
{
    let s = utf8_lossy(d);
    single_lines_stay(s);
    ascii_units(s);
    let u = utf16(s);
    let b = rdp_data(13, mime, d)->0;
    assert(le_bytes(u).len() == 2 * s.len());
    assert forall|i: int| 0 <= i < s.len() implies b[2 * i] == (#[trigger] s[i]) as u32 && b[2 * i
        + 1] == 0 by {
        assert(u[i] == s[i] as u32);
        assert(b[2 * i] == le_bytes(u)[2 * i]);
        assert(b[2 * i + 1] == le_bytes(u)[2 * i + 1]);
    }
}

/// Text that a Linux program copied and a Windows program sends back reaches Linux
/// programs that paste plain text or HTML as they would have it from each other.
pub proof fn text_survives_the_round_trip(held: Seq<char>, pasted: Seq<char>, d: Seq<u8>)
    requires
        "text/plain"@.is_prefix_of(pasted) || "text/html"@.is_prefix_of(pasted),
    ensures
        portal_data(pasted, rdp_data(13, held, d)->0) == Some(encode_utf8(unix_text(utf8_lossy(d)))),
        is_plain_unix(utf8_lossy(d)) ==> portal_data(pasted, rdp_data(13, held, d)->0) == Some(
            encode_utf8(utf8_lossy(d)),
        ),
{
    unicode_requests_get_the_text(held, d);
    lemma_mime_kinds(pasted);
    let b = rdp_data(13, held, d)->0;
    assert(units_of(b).len() >= 1);
}

proof fn lemma_mime_kinds(m: Seq<char>)
    ensures
        "text/plain"@.is_prefix_of(m) || "text/html"@.is_prefix_of(m) || "text/rtf"@ == m
            || "application/rtf"@ == m ==> !"image/png"@.is_prefix_of(m)
            && !"image/jpeg"@.is_prefix_of(m) && !"image/bmp"@.is_prefix_of(m)
            && !"image/x-bmp"@.is_prefix_of(m),
        "text/plain"@.is_prefix_of(m) || "text/html"@.is_prefix_of(m) ==> m != "text/rtf"@ && m
            != "application/rtf"@,
        "image/png"@.is_prefix_of(m) ==> !"image/jpeg"@.is_prefix_of(m)
            && !"image/bmp"@.is_prefix_of(m) && !"image/x-bmp"@.is_prefix_of(m),
        "image/jpeg"@.is_prefix_of(m) ==> !"image/bmp"@.is_prefix_of(m)
            && !"image/x-bmp"@.is_prefix_of(m),
{
    reveal_strlit("text/plain");
    reveal_strlit("text/html");
    reveal_strlit("text/rtf");
    reveal_strlit("application/rtf");
    reveal_strlit("image/png");
    reveal_strlit("image/jpeg");
    reveal_strlit("image/bmp");
    reveal_strlit("image/x-bmp");
    lemma_prefix_chars("text/plain"@, m);
    lemma_prefix_chars("text/html"@, m);
    lemma_prefix_chars("image/png"@, m);
    lemma_prefix_chars("image/jpeg"@, m);
    lemma_prefix_chars("image/bmp"@, m);
    lemma_prefix_chars("image/x-bmp"@, m);
    assert("text/plain"@[0] == 't' && "text/plain"@[5] == 'p');
    assert("text/html"@[0] == 't' && "text/html"@[5] == 'h');
    assert("text/rtf"@[0] == 't' && "text/rtf"@[5] == 'r');
    assert("application/rtf"@[0] == 'a');
    assert("image/png"@[0] == 'i' && "image/png"@[6] == 'p');
    assert("image/jpeg"@[0] == 'i' && "image/jpeg"@[6] == 'j');
    assert("image/bmp"@[0] == 'i' && "image/bmp"@[6] == 'b');
    assert("image/x-bmp"@[0] == 'i' && "image/x-bmp"@[6] == 'x');
}

proof fn lemma_prefix_chars(p: Seq<char>, s: Seq<char>)
    ensures
        p.is_prefix_of(s) ==> p.len() <= s.len() && forall|i: int| 0 <= i < p.len() ==> s[i] == p[i],
{
    if p.is_prefix_of(s) {
        assert forall|i: int| 0 <= i < p.len() implies s[i] == p[i] by {
            assert(s.subrange(0, p.len() as int)[i] == s[i]);
        }
    }
}

/// A bitmap that the remote client sent and that is held as a BMP file goes back to it
/// as it came.
pub proof fn bitmaps_come_back(mime: Seq<char>, d: Seq<u8>)
    requires
        "image/bmp"@.is_prefix_of(mime) || "image/x-bmp"@.is_prefix_of(mime),
        40 <= d.len() <= u32::MAX - 14,
    ensures
        portal_data(mime, d) matches Some(file) && file[0] == 'B' as u8 && file[1] == 'M' as u8
            && rdp_data(8, mime, file) == Some(d),
{
    lemma_mime_kinds(mime);
    let file = portal_data(mime, d)->0;
    assert(file.skip(14) =~= d);
}

/// Pictures go through the conversion between what is held and what is asked for,
/// the older kind of bitmap as number 8 and the newer one as number 17.
pub proof fn pictures_are_converted(mime: Seq<char>, d: Seq<u8>)
    ensures
        "image/png"@.is_prefix_of(mime) ==> rdp_data(8, mime, d) == png_dib(d) && rdp_data(
            17,
            mime,
            d,
        ) == png_dibv5(d),
        "image/jpeg"@.is_prefix_of(mime) ==> rdp_data(8, mime, d) == jpeg_dib(d) && rdp_data(
            17,
            mime,
            d,
        ) == jpeg_dibv5(d),
        "image/bmp"@.is_prefix_of(mime) || "image/x-bmp"@.is_prefix_of(mime) ==> (match rdp_data(
            8,
            mime,
            d,
        ) {
            Some(b) => d.len() >= 14 && d[0] == 'B' as u8 && d[1] == 'M' as u8 && b == d.skip(14),
            None => d.len() < 14 || d[0] != 'B' as u8 || d[1] != 'M' as u8,
        }),
        "image/png"@.is_prefix_of(mime) && d.len() >= 4 ==> portal_data(mime, d) == (if d[0] == 40
            && d[1] == 0 && d[2] == 0 && d[3] == 0 {
            dib_png(d)
        } else {
            dibv5_png(d)
        }),
        "image/jpeg"@.is_prefix_of(mime) && d.len() >= 4 ==> portal_data(mime, d) == (if d[0] == 124
            && d[1] == 0 && d[2] == 0 && d[3] == 0 {
            dibv5_jpeg(d)
        } else {
            dib_jpeg(d)
        }),
        ("image/png"@.is_prefix_of(mime) || "image/jpeg"@.is_prefix_of(mime)) && d.len() < 4
            ==> portal_data(mime, d) is None,
{
    lemma_mime_kinds(mime);
}

/// Rich text is made ready for Linux without leaving UTF-8.
pub proof fn rich_text_stays_utf8(mime: Seq<char>, d: Seq<u8>)
    requires
        mime == "text/rtf"@ || mime == "application/rtf"@,
    ensures
        portal_data(mime, d) == Some(encode_utf8(unix_text(utf8_lossy(d)))),
        is_plain_unix(utf8_lossy(d)) ==> portal_data(mime, d) == Some(encode_utf8(utf8_lossy(d))),
{
    lemma_mime_kinds(mime);
    if is_plain_unix(utf8_lossy(d)) {
        crate::clipboard::line_endings::plain_text_stays(utf8_lossy(d));
    }
}

/// Plain text and HTML of the remote client are read as UTF-16 up to the first zero;
/// less than one unit is passed on as it is.
pub proof fn text_is_read_as_utf16(mime: Seq<char>, d: Seq<u8>)
    requires
        "text/plain"@.is_prefix_of(mime) || "text/html"@.is_prefix_of(mime),
    ensures
        d.len() >= 2 ==> portal_data(mime, d) == Some(
            encode_utf8(unix_text(decode_lossy(until_zero(units_of(d))))),
        ),
        d.len() < 2 ==> portal_data(mime, d) == Some(d),
{
    lemma_mime_kinds(mime);
}

/// Data that is neither text nor a picture for the format or MIME type that is asked
/// for passes unchanged in both directions.
pub proof fn other_data_passes_unchanged(format_id: u32, mime: Seq<char>, d: Seq<u8>)
    ensures
        format_id != 13 && format_id != 8 && format_id != 17 ==> rdp_data(format_id, mime, d)
            == Some(d),
        format_id != 13 && !"image/"@.is_prefix_of(mime) ==> rdp_data(format_id, mime, d) == Some(d),
        !"image/"@.is_prefix_of(mime) && !"text/"@.is_prefix_of(mime) && mime
            != "application/rtf"@ ==> portal_data(mime, d) == Some(d),
        mime == "text/uri-list"@ ==> portal_data(mime, d) == Some(d),
{
    reveal_strlit("image/");
    reveal_strlit("text/");
    reveal_strlit("image/png");
    reveal_strlit("image/jpeg");
    reveal_strlit("image/bmp");
    reveal_strlit("image/x-bmp");
    reveal_strlit("text/plain");
    reveal_strlit("text/html");
    reveal_strlit("text/rtf");
    reveal_strlit("application/rtf");
    reveal_strlit("text/uri-list");
    lemma_shorter_prefix("image/"@, "image/png"@, mime);
    lemma_shorter_prefix("image/"@, "image/jpeg"@, mime);
    lemma_shorter_prefix("image/"@, "image/bmp"@, mime);
    lemma_shorter_prefix("image/"@, "image/x-bmp"@, mime);
    lemma_shorter_prefix("text/"@, "text/plain"@, mime);
    lemma_shorter_prefix("text/"@, "text/html"@, mime);
    assert("text/rtf"@.subrange(0, 5) =~= "text/"@);
    lemma_prefix_chars("image/png"@, mime);
    lemma_prefix_chars("image/jpeg"@, mime);
    lemma_prefix_chars("image/bmp"@, mime);
    lemma_prefix_chars("image/x-bmp"@, mime);
    lemma_prefix_chars("text/plain"@, mime);
    lemma_prefix_chars("text/html"@, mime);
    assert("text/uri-list"@[0] == 't' && "text/uri-list"@[5] == 'u');
    assert("text/plain"@[5] == 'p' && "text/html"@[5] == 'h' && "text/rtf"@[5] == 'r');
    assert("image/png"@[0] == 'i' && "image/jpeg"@[0] == 'i' && "image/bmp"@[0] == 'i'
        && "image/x-bmp"@[0] == 'i');
    assert("application/rtf"@[0] == 'a');
}

proof fn lemma_shorter_prefix(p: Seq<char>, q: Seq<char>, s: Seq<char>)
    requires
        p.len() <= q.len(),
        p =~= q.subrange(0, p.len() as int),
    ensures
        q.is_prefix_of(s) ==> p.is_prefix_of(s),
{
    if q.is_prefix_of(s) {
        lemma_prefix_chars(q, s);
        assert(s.subrange(0, p.len() as int) =~= p) by {
            assert forall|i: int| 0 <= i < p.len() implies s[i] == p[i] by {
                assert(q.subrange(0, p.len() as int)[i] == q[i]);
            }
        }
    }
}

/// Only pictures can be unreadable, and only where there is a header to read.
pub proof fn only_pictures_are_unreadable(mime: Seq<char>, d: Seq<u8>)
    requires
        !bitmap_readable(mime, d),
    ensures
        "image/png"@.is_prefix_of(mime) || "image/jpeg"@.is_prefix_of(mime),
        d.len() >= 40,
{
}

/// Trimming takes off all of one character at the end and nothing else.
pub proof fn trimming_takes_the_end_off(s: Seq<char>, c: char)
    ensures
        trim_end(s, c).is_prefix_of(s),
        trim_end(s, c).len() > 0 ==> trim_end(s, c).last() != c,
        forall|i: int| trim_end(s, c).len() <= i < s.len() ==> s[i] == c,
    decreases s.len(),
{
    if s.len() > 0 && s.last() == c {
        let t = s.drop_last();
        trimming_takes_the_end_off(t, c);
        let k = trim_end(s, c);
        assert(k =~= s.subrange(0, k.len() as int)) by {
            assert(k =~= t.subrange(0, k.len() as int));
        }
        assert forall|i: int| k.len() <= i < s.len() implies s[i] == c by {
            if i < t.len() {
                assert(s[i] == t[i]);
            }
        }
    } else {
        assert(s =~= s.subrange(0, s.len() as int));
    }
}

/// Text that a clipboard manager handed over reads as that text: in full as UTF-16,
/// with a zero behind it, and pasted by a Linux program as that program expects it.
pub proof fn cached_text_reads_back(s: Seq<char>)
    ensures
        decode_lossy(units_of(cached_bytes(s))) == s.push('\0'),
        !s.contains('\0') ==> linux_text(cached_bytes(s)) == encode_utf8(unix_text(s)),
{
    let t = s.push('\0');
    lemma_utf16_push(s, '\0');
    assert(utf16(t) =~= utf16(s).push(0));
    le_bytes_read_back(utf16(t));
    encoded_text_reads_back(t);
    if !s.contains('\0') {
        assert forall|i: int| 0 <= i < s.len() implies s[i] != '\0' by {
            assert(s.contains(s[i]));
        }
        lemma_utf16_no_zero(s);
        terminator_is_dropped(utf16(s), Seq::empty());
        assert(utf16(s) + seq![0u16] + Seq::<u16>::empty() =~= utf16(s).push(0));
        encoded_text_reads_back(s);
    }
}

} // verus!
