//! Image format sniffing by magic-byte prefixes.
use vstd::prelude::*;

verus! {

/// The image kinds that artwork can be recognised as.
#[derive(Clone, Copy, PartialEq, Eq, Structural, Debug)]
pub enum ImageKind {
    Jpeg,
    Png,
    Gif,
    Webp,
    Bmp,
}

/// Whether `data` starts with `p`.
pub open spec fn has_prefix(data: Seq<u8>, p: Seq<u8>) -> bool {
    p.len() <= data.len() && data.subrange(0, p.len() as int) == p
}

/// Signatures of the recognised formats; WEBP is `RIFF`, a length, then `WEBP`.
pub open spec fn jpeg_magic() -> Seq<u8> {
    seq![0xFFu8, 0xD8, 0xFF]
}

pub open spec fn png_magic() -> Seq<u8> {
    seq![0x89u8, 0x50, 0x4E, 0x47, 0x0D, 0x0A, 0x1A, 0x0A]
}

pub open spec fn gif_magic() -> Seq<u8> {
    seq![0x47u8, 0x49, 0x46, 0x38]
}

pub open spec fn riff_magic() -> Seq<u8> {
    seq![0x52u8, 0x49, 0x46, 0x46]
}

pub open spec fn webp_tag() -> Seq<u8> {
    seq![0x57u8, 0x45, 0x42, 0x50]
}

pub open spec fn bmp_magic() -> Seq<u8> {
    seq![0x42u8, 0x4D]
}

/// The kind of image `data` starts like, in priority order; none for
/// buffers under four bytes.
pub open spec fn sniff(data: Seq<u8>) -> Option<ImageKind> {
    if data.len() < 4 {
        None
    } else if has_prefix(data, jpeg_magic()) {
        Some(ImageKind::Jpeg)
    } else if has_prefix(data, png_magic()) {
        Some(ImageKind::Png)
    } else if has_prefix(data, gif_magic()) {
        Some(ImageKind::Gif)
    } else if data.len() >= 12 && has_prefix(data, riff_magic())
        && data.subrange(8, 12) == webp_tag() {
        Some(ImageKind::Webp)
    } else if has_prefix(data, bmp_magic()) {
        Some(ImageKind::Bmp)
    } else {
        None
    }
}

/// The MIME type of an image kind.
pub open spec fn mime_name(k: ImageKind) -> Seq<char> {
    match k {
        ImageKind::Jpeg => "image/jpeg"@,
        ImageKind::Png => "image/png"@,
        ImageKind::Gif => "image/gif"@,
        ImageKind::Webp => "image/webp"@,
        ImageKind::Bmp => "image/bmp"@,
    }
}

/// The MIME type sniffed from `data`, as text.
pub open spec fn sniffed_mime(data: Seq<u8>) -> Option<Seq<char>> {
    match sniff(data) {
        Some(k) => Some(mime_name(k)),
        None => None,
    }
}

/// Each recognised signature gives its own MIME type, taken in the order
/// JPEG, PNG, GIF, WEBP, BMP; a buffer under four bytes, or one that starts
/// with none of them, gives none.
pub proof fn lemma_sniffed_types(data: Seq<u8>)
    ensures
        data.len() < 4 ==> sniffed_mime(data) is None,
        data.len() >= 4 && has_prefix(data, jpeg_magic()) ==> sniffed_mime(data) == Some(
            "image/jpeg"@,
        ),
        data.len() >= 4 && !has_prefix(data, jpeg_magic()) && has_prefix(data, png_magic())
            ==> sniffed_mime(data) == Some("image/png"@),
        data.len() >= 4 && !has_prefix(data, jpeg_magic()) && !has_prefix(data, png_magic())
            && has_prefix(data, gif_magic()) ==> sniffed_mime(data) == Some("image/gif"@),
        data.len() >= 12 && !has_prefix(data, jpeg_magic()) && !has_prefix(data, png_magic())
            && !has_prefix(data, gif_magic()) && has_prefix(data, riff_magic()) && data.subrange(
            8,
            12,
        ) == webp_tag() ==> sniffed_mime(data) == Some("image/webp"@),
        data.len() >= 4 && !has_prefix(data, jpeg_magic()) && !has_prefix(data, png_magic())
            && !has_prefix(data, gif_magic()) && !(data.len() >= 12 && has_prefix(
            data,
            riff_magic(),
        ) && data.subrange(8, 12) == webp_tag()) && has_prefix(data, bmp_magic())
            ==> sniffed_mime(data) == Some("image/bmp"@),
        data.len() >= 4 && !has_prefix(data, jpeg_magic()) && !has_prefix(data, png_magic())
            && !has_prefix(data, gif_magic()) && !(data.len() >= 12 && has_prefix(
            data,
            riff_magic(),
        ) && data.subrange(8, 12) == webp_tag()) && !has_prefix(data, bmp_magic())
            ==> sniffed_mime(data) is None,
{
}

fn starts_with_at(data: &[u8], at: usize, p: &[u8]) -> (r: bool)
    requires
        at <= data@.len(),
    ensures
        r == (at + p@.len() <= data@.len() && data@.subrange(at as int, at + p@.len()) == p@),
{
    let n: usize = data.len();
    if p.len() > n - at {
        return false;
    }
    let mut i: usize = 0;
    while i < p.len()
        invariant
            i <= p@.len(),
            at + p@.len() <= data@.len(),
            data@.len() == n,
            forall|j: int| 0 <= j < i ==> data@[at + j] == p@[j],
        decreases p@.len() - i,
    {
        if data[at + i] != p[i] {
            assert(data@.subrange(at as int, at + p@.len())[i as int] != p@[i as int]);
            return false;
        }
        i = i + 1;
    }
    assert(data@.subrange(at as int, at + p@.len()) =~= p@);
    true
}

fn kind_mime(k: ImageKind) -> (r: String)
    ensures
        r@ == mime_name(k),
{
    match k {
        ImageKind::Jpeg => String::from_str("image/jpeg"),
        ImageKind::Png => String::from_str("image/png"),
        ImageKind::Gif => String::from_str("image/gif"),
        ImageKind::Webp => String::from_str("image/webp"),
        ImageKind::Bmp => String::from_str("image/bmp"),
    }
}

/// Recognises JPEG, PNG, GIF, WEBP and BMP by their leading bytes.
pub fn sniff_image_kind(data: &[u8]) -> (r: Option<ImageKind>)
    ensures
        r == sniff(data@),
{
    if data.len() < 4 {
        return None;
    }
    let jpeg: [u8; 3] = [0xFF, 0xD8, 0xFF];
    let png: [u8; 8] = [0x89, 0x50, 0x4E, 0x47, 0x0D, 0x0A, 0x1A, 0x0A];
    let gif: [u8; 4] = [0x47, 0x49, 0x46, 0x38];
    let riff: [u8; 4] = [0x52, 0x49, 0x46, 0x46];
    let webp: [u8; 4] = [0x57, 0x45, 0x42, 0x50];
    let bmp: [u8; 2] = [0x42, 0x4D];
    assert(jpeg@ =~= jpeg_magic());
    assert(png@ =~= png_magic());
    assert(gif@ =~= gif_magic());
    assert(riff@ =~= riff_magic());
    assert(webp@ =~= webp_tag());
    assert(bmp@ =~= bmp_magic());
    if starts_with_at(data, 0, jpeg.as_slice()) {
        Some(ImageKind::Jpeg)
    } else if starts_with_at(data, 0, png.as_slice()) {
        Some(ImageKind::Png)
    } else if starts_with_at(data, 0, gif.as_slice()) {
        Some(ImageKind::Gif)
    } else if data.len() >= 12 && starts_with_at(data, 0, riff.as_slice())
        && starts_with_at(data, 8, webp.as_slice()) {
        Some(ImageKind::Webp)
    } else if starts_with_at(data, 0, bmp.as_slice()) {
        Some(ImageKind::Bmp)
    } else {
        None
    }
}

/// The MIME type of an image buffer recognised by its magic bytes, if any.
pub fn detect_image_mime_type(data: &[u8]) -> (r: Option<String>)
    ensures
        r matches Some(s) ==> sniffed_mime(data@) == Some(s@),
        r is None <==> sniffed_mime(data@) is None,
{
    match sniff_image_kind(data) {
        Some(k) => Some(kind_mime(k)),
        None => None,
    }
}

} // verus!
