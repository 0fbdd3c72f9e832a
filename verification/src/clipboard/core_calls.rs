//! The conversions that the clipboard takes from other crates.

use vstd::prelude::*;
use vstd::utf8::*;
use crate::clipboard::bytes::{le32, le32_bytes, magnitude32};
use crate::clipboard::line_endings::{unix_text, windows_text};
use crate::text::hex_digit;
use crate::utf16::{decode_lossy, units_of, until_zero, well_formed};

verus! {

/// `sanitize_text_for_linux`: each carriage return and line feed pair becomes a
/// line feed, then null characters are removed.
pub assume_specification[ lamco_clipboard_core::sanitize::sanitize_text_for_linux ](
    text: &str,
) -> (r: String)
    ensures
        r@ == unix_text(text@),
;

/// `sanitize_text_for_windows`: line endings become carriage return and line
/// feed, then null characters are removed.
pub assume_specification[ lamco_clipboard_core::sanitize::sanitize_text_for_windows ](
    text: &str,
) -> (r: String)
    ensures
        r@ == windows_text(text@),
;

/// The file name that `sanitize_filename_for_linux` makes of a name.
pub uninterp spec fn linux_filename(name: Seq<char>) -> Seq<char>;

/// `sanitize_filename_for_linux`: the result is a function of the name alone. It
/// is never empty, never `.` or `..`, and holds neither a slash nor a null
/// character.
pub assume_specification[ lamco_clipboard_core::sanitize::sanitize_filename_for_linux ](
    filename: &str,
) -> (r: String)
    ensures
        r@ == linux_filename(filename@),
        r@.len() > 0,
        !r@.contains('/'),
        !r@.contains('\0'),
        r@ != seq!['.'],
        r@ != seq!['.', '.'],
;

/// `from_utf16_bytes`: the whole pairs of bytes are read as UTF-16, low byte
/// first, and each unpaired surrogate becomes U+FFFD.
pub assume_specification[ ironrdp_pdu::utils::from_utf16_bytes ](value: &[u8]) -> (r: String)
    ensures
        r@ == decode_lossy(units_of(value@)),
;

/// A conversion gave the named bytes, or failed where the name has none.
pub open spec fn converted(
    r: Result<Vec<u8>, lamco_clipboard_core::ClipboardError>,
    named: Option<Seq<u8>>,
) -> bool {
    match r {
        Ok(v) => named == Some(v@),
        Err(_) => named is None,
    }
}

/// A bitmap whose header takes `header` bytes and whose pixels take 32 bits.
pub open spec fn is_bitmap32(d: Seq<u8>, header: int) -> bool {
    d.len() >= header && le32(d, 0) == header && d[14] == 32 && d[15] == 0
}

/// The bitmap of a PNG image, with a 40-byte header.
pub uninterp spec fn png_dib(d: Seq<u8>) -> Option<Seq<u8>>;

/// The bitmap of a JPEG image, with a 40-byte header.
pub uninterp spec fn jpeg_dib(d: Seq<u8>) -> Option<Seq<u8>>;

/// The bitmap of a PNG image, with a 124-byte header.
pub uninterp spec fn png_dibv5(d: Seq<u8>) -> Option<Seq<u8>>;

/// The bitmap of a JPEG image, with a 124-byte header.
pub uninterp spec fn jpeg_dibv5(d: Seq<u8>) -> Option<Seq<u8>>;

/// The PNG image of a bitmap with a 40-byte header.
pub uninterp spec fn dib_png(d: Seq<u8>) -> Option<Seq<u8>>;

/// The PNG image of a bitmap with a 124-byte or a 40-byte header.
pub uninterp spec fn dibv5_png(d: Seq<u8>) -> Option<Seq<u8>>;

/// The JPEG image of a bitmap with a 40-byte header.
pub uninterp spec fn dib_jpeg(d: Seq<u8>) -> Option<Seq<u8>>;

/// The JPEG image of a bitmap with a 124-byte or a 40-byte header.
pub uninterp spec fn dibv5_jpeg(d: Seq<u8>) -> Option<Seq<u8>>;

/// `image::png_to_dib`: a function of the data alone; what it gives begins with
/// a 40-byte header and has 32 bits per pixel.
pub assume_specification[ lamco_clipboard_core::image::png_to_dib ](png_data: &[u8]) -> (r: Result<
    Vec<u8>,
    lamco_clipboard_core::ClipboardError,
>)
    ensures
        converted(r, png_dib(png_data@)),
        r matches Ok(v) ==> is_bitmap32(v@, 40),
;

/// `image::jpeg_to_dib`: a function of the data alone; what it gives begins with
/// a 40-byte header and has 32 bits per pixel.
pub assume_specification[ lamco_clipboard_core::image::jpeg_to_dib ](
    jpeg_data: &[u8],
) -> (r: Result<Vec<u8>, lamco_clipboard_core::ClipboardError>)
    ensures
        converted(r, jpeg_dib(jpeg_data@)),
        r matches Ok(v) ==> is_bitmap32(v@, 40),
;

/// `image::png_to_dibv5`: a function of the data alone; what it gives begins
/// with a 124-byte header and has 32 bits per pixel.
pub assume_specification[ lamco_clipboard_core::image::png_to_dibv5 ](
    png_data: &[u8],
) -> (r: Result<Vec<u8>, lamco_clipboard_core::ClipboardError>)
    ensures
        converted(r, png_dibv5(png_data@)),
        r matches Ok(v) ==> is_bitmap32(v@, 124),
;

/// `image::jpeg_to_dibv5`: a function of the data alone; what it gives begins
/// with a 124-byte header and has 32 bits per pixel.
pub assume_specification[ lamco_clipboard_core::image::jpeg_to_dibv5 ](
    jpeg_data: &[u8],
) -> (r: Result<Vec<u8>, lamco_clipboard_core::ClipboardError>)
    ensures
        converted(r, jpeg_dibv5(jpeg_data@)),
        r matches Ok(v) ==> is_bitmap32(v@, 124),
;

/// `image::bmp_to_dib`: the data behind the 14-byte file header, if the data has
/// one that begins with `BM`.
pub assume_specification[ lamco_clipboard_core::image::bmp_to_dib ](bmp_data: &[u8]) -> (r: Result<
    Vec<u8>,
    lamco_clipboard_core::ClipboardError,
>)
    ensures
        converted(r, bmp_dib(bmp_data@)),
;

/// The bitmap in a BMP file.
pub open spec fn bmp_dib(d: Seq<u8>) -> Option<Seq<u8>> {
    if d.len() >= 14 && d[0] == 0x42 && d[1] == 0x4d {
        Some(d.skip(14))
    } else {
        None
    }
}

/// `image::dib_to_bmp`: a 14-byte file header is put before the bitmap. The
/// bitmap has at least 40 bytes, and the file size fits in four.
pub assume_specification[ lamco_clipboard_core::image::dib_to_bmp ](dib_data: &[u8]) -> (r: Result<
    Vec<u8>,
    lamco_clipboard_core::ClipboardError,
>)
    ensures
        converted(r, dib_bmp(dib_data@)),
;

/// The BMP file of a bitmap.
pub open spec fn dib_bmp(d: Seq<u8>) -> Option<Seq<u8>> {
    if d.len() >= 40 && d.len() + 14 <= u32::MAX {
        Some(
            seq![0x42u8, 0x4du8] + le32_bytes((14 + d.len()) as int) + seq![0u8, 0u8, 0u8, 0u8]
                + le32_bytes(54) + d,
        )
    } else {
        None
    }
}

/// The width and height in the header of `d` give sizes that a machine word
/// holds. Only 32 and 24 bits per pixel are read.
pub open spec fn sizes_fit(d: Seq<u8>) -> bool {
    let w = magnitude32(d, 4);
    let h = magnitude32(d, 8);
    let bits = d[14] + 0x100 * d[15];
    &&& bits == 32 ==> w * h * 4 <= usize::MAX
    &&& bits == 24 ==> 3 * w <= 0xffff_fffc && (3 * w + 3) / 4 * 4 * h <= usize::MAX
}

/// A bitmap with a plain header can be read.
pub open spec fn dib_readable(d: Seq<u8>) -> bool {
    d.len() >= 40 && 40 <= le32(d, 0) < d.len() ==> sizes_fit(d)
}

/// The colour masks of a bitmap with a 124-byte header are not zero where
/// pixels are read through them.
pub open spec fn masks_set(d: Seq<u8>) -> bool {
    let w = magnitude32(d, 4);
    let h = magnitude32(d, 8);
    d[14] + 0x100 * d[15] == 32 && le32(d, 16) == 3 && w > 0 && h > 0 && d.len() - 124 >= w * h * 4
        ==> le32(d, 40) != 0 && le32(d, 44) != 0 && le32(d, 48) != 0
}

/// A bitmap with a 124-byte header, or a plain one in its place, can be read.
pub open spec fn dibv5_readable(d: Seq<u8>) -> bool {
    d.len() >= 4 ==> {
        &&& le32(d, 0) == 40 ==> dib_readable(d)
        &&& le32(d, 0) == 124 && d.len() >= 124 ==> sizes_fit(d) && masks_set(d)
    }
}

/// `image::dib_to_png`: a function of the data alone.
pub assume_specification[ lamco_clipboard_core::image::dib_to_png ](dib_data: &[u8]) -> (r: Result<
    Vec<u8>,
    lamco_clipboard_core::ClipboardError,
>)
    requires
        dib_readable(dib_data@),
    ensures
        converted(r, dib_png(dib_data@)),
;

/// `image::dibv5_to_png`: a function of the data alone.
pub assume_specification[ lamco_clipboard_core::image::dibv5_to_png ](
    dibv5_data: &[u8],
) -> (r: Result<Vec<u8>, lamco_clipboard_core::ClipboardError>)
    requires
        dibv5_readable(dibv5_data@),
    ensures
        converted(r, dibv5_png(dibv5_data@)),
;

/// `image::dib_to_jpeg`: a function of the data alone.
pub assume_specification[ lamco_clipboard_core::image::dib_to_jpeg ](dib_data: &[u8]) -> (r: Result<
    Vec<u8>,
    lamco_clipboard_core::ClipboardError,
>)
    requires
        dib_readable(dib_data@),
    ensures
        converted(r, dib_jpeg(dib_data@)),
;

/// `image::dibv5_to_jpeg`: a function of the data alone.
pub assume_specification[ lamco_clipboard_core::image::dibv5_to_jpeg ](
    dibv5_data: &[u8],
) -> (r: Result<Vec<u8>, lamco_clipboard_core::ClipboardError>)
    requires
        dibv5_readable(dibv5_data@),
    ensures
        converted(r, dibv5_jpeg(dibv5_data@)),
;

/// A file that the remote side offers.
pub struct FileDescriptor {
    /// The name as it was sent.
    pub name: String,
    /// The size in bytes, where it was sent.
    pub size: Option<u64>,
}

/// How many files a group descriptor announces.
pub open spec fn group_count(d: Seq<u8>) -> int {
    le32(d, 0)
}

/// The units of the name of file `i`, before the first zero.
pub open spec fn group_name(d: Seq<u8>, i: int) -> Seq<u16> {
    until_zero(units_of(d.subrange(4 + 592 * i + 72, 4 + 592 * i + 592)))
}

/// The size of file `i`, where bit 6 of its flags says that there is one.
pub open spec fn group_size(d: Seq<u8>, i: int) -> Option<u64> {
    if d[4 + 592 * i] / 64 % 2 == 1 {
        Some(
            (le32(d, 4 + 592 * i + 64) * 0x1_0000_0000 + le32(d, 4 + 592 * i + 68)) as u64,
        )
    } else {
        None
    }
}

/// The group descriptor holds all the files it announces, and their names are
/// UTF-16.
pub open spec fn group_well_formed(d: Seq<u8>) -> bool {
    &&& d.len() >= 4
    &&& group_count(d) > 0 ==> d.len() >= 4 + 592 * group_count(d)
    &&& forall|i: int| 0 <= i < group_count(d) ==> well_formed(#[trigger] group_name(d, i))
}

/// `v` are the files that the group descriptor announces.
pub open spec fn group_files(d: Seq<u8>, v: Seq<FileDescriptor>) -> bool {
    &&& v.len() == group_count(d)
    &&& forall|i: int|
        0 <= i < v.len() ==> (#[trigger] v[i]).name@ == decode_lossy(group_name(d, i)) && v[i].size
            == group_size(d, i)
}

/// `FileDescriptor::parse_list`: the announced files with their names and sizes,
/// or an error where the data is too short or a name is not UTF-16.
#[verifier::external_body]
pub(crate) fn parse_group_descriptor(data: &[u8]) -> (r: Result<
    Vec<FileDescriptor>,
    lamco_clipboard_core::ClipboardError,
>)
    requires
        data@.len() >= 4 ==> 4 + 592 * group_count(data@) <= usize::MAX,
    ensures
        r is Ok <==> group_well_formed(data@),
        r matches Ok(v) ==> group_files(data@, v@),
{
    let list = lamco_clipboard_core::FileDescriptor::parse_list(data)?;
    Ok(list.into_iter().map(|d| FileDescriptor { name: d.name, size: d.size }).collect())
}

/// The text that `String::from_utf8_lossy` reads from bytes.
pub uninterp spec fn utf8_lossy(d: Seq<u8>) -> Seq<char>;

/// `String::from_utf8_lossy`: a function of the bytes alone. Bytes that are the
/// UTF-8 of a text give that text.
#[verifier::external_body]
pub(crate) fn read_utf8_lossy(data: &[u8]) -> (r: String)
    ensures
        r@ == utf8_lossy(data@),
        valid_utf8(data@) ==> r@ == decode_utf8(data@),
{
    String::from_utf8_lossy(data).to_string()
}

/// The bytes that `FILE_URI` encoding writes as a percent sign and two digits:
/// controls, the characters that have a meaning in a URI, and all beyond ASCII.
pub open spec fn is_escaped(b: u8) -> bool {
    ||| b < 0x20
    ||| b >= 0x7f
    ||| b == 0x20
    ||| b == 0x22
    ||| b == 0x23
    ||| b == 0x25
    ||| b == 0x3c
    ||| b == 0x3e
    ||| b == 0x3f
    ||| b == 0x60
    ||| b == 0x7b
    ||| b == 0x7d
}

/// One byte of an encoded text.
pub open spec fn escape_byte(b: u8) -> Seq<char> {
    if is_escaped(b) {
        seq!['%', hex_digit(b as int / 16), hex_digit(b as int % 16)]
    } else {
        seq![b as char]
    }
}

/// Bytes with those that need it percent-encoded.
pub open spec fn percent_encoded(d: Seq<u8>) -> Seq<char>
    decreases d.len(),
{
    if d.len() == 0 {
        Seq::empty()
    } else {
        percent_encoded(d.drop_last()) + escape_byte(d.last())
    }
}

/// `percent_encode_byte`: a percent sign and the two upper-case hexadecimal
/// digits of the byte.
pub assume_specification[ percent_encoding::percent_encode_byte ](byte: u8) -> (r: &'static str)
    ensures
        r@ == seq!['%', hex_digit(byte as int / 16), hex_digit(byte as int % 16)],
;

} // verus!
