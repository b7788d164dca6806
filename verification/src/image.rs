//! Image references: `data:` URLs with base64 payloads, and the magic
//! bytes that identify PNG and JPEG files.

use vstd::prelude::*;
use vstd::string::{StrSliceExecFns, StringSliceAdditionalSpecFns};

use crate::strings::{
    chars_of, contains_seq, find_char_from, first_index_of, lemma_first_index_of_is,
    lemma_first_index_of_none, occurs_at, starts_with_seq, str_contains, str_starts_with,
};

verus! {

/// The base64 digit for a 6-bit value (standard alphabet).
pub open spec fn b64_digit(v: int) -> char {
    if v < 26 {
        ('A' as int + v) as char
    } else if v < 52 {
        ('a' as int + (v - 26)) as char
    } else if v < 62 {
        ('0' as int + (v - 52)) as char
    } else if v == 62 {
        '+'
    } else {
        '/'
    }
}

/// Standard base64 with `=` padding (RFC 4648, section 4): each group of
/// three bytes becomes four digits; a final group of one or two bytes
/// becomes two or three digits and `=` up to four.
pub open spec fn base64_encode(d: Seq<u8>) -> Seq<char>
    decreases d.len(),
{
    if d.len() == 0 {
        seq![]
    } else {
        let b0 = d[0] as int;
        let b1 = if d.len() > 1 {
            d[1] as int
        } else {
            0
        };
        let b2 = if d.len() > 2 {
            d[2] as int
        } else {
            0
        };
        let c0 = b64_digit(b0 / 4);
        let c1 = b64_digit((b0 % 4) * 16 + b1 / 16);
        let c2 = b64_digit((b1 % 16) * 4 + b2 / 64);
        let c3 = b64_digit(b2 % 64);
        if d.len() == 1 {
            seq![c0, c1, '=', '=']
        } else if d.len() == 2 {
            seq![c0, c1, c2, '=']
        } else {
            seq![c0, c1, c2, c3] + base64_encode(d.skip(3))
        }
    }
}

/// Encodes `data` with `base64::encode`: the standard alphabet with
/// padding and no line wrapping. The contract states the result exactly
/// as `base64_encode`; the crate's encoder panics only when the encoded
/// length overflows `usize`, which the bound on `data` rules out.
#[verifier::external_body]
fn base64_encode_bytes(data: &[u8]) -> (r: String)
    requires
        data@.len() <= usize::MAX / 2,
    ensures
        r@ == base64_encode(data@),
{
    base64::encode(data)
}

/// The characters that the decoder skips before decoding: space, `\n`,
/// `\t`, `\r`, `\x0b` and `\x0c`.
pub open spec fn is_b64_space(c: char) -> bool {
    c == ' ' || c == '\n' || c == '\t' || c == '\r' || c == '\u{b}' || c == '\u{c}'
}

/// `s` without the characters that the decoder skips.
pub open spec fn strip_b64_space(s: Seq<char>) -> Seq<char>
    decreases s.len(),
{
    if s.len() == 0 {
        s
    } else if is_b64_space(s[0]) {
        strip_b64_space(s.drop_first())
    } else {
        seq![s[0]] + strip_b64_space(s.drop_first())
    }
}

/// What `base64::decode_config` returns for `text` with the standard
/// alphabet, padding, whitespace stripping and no line wrap: the decoded
/// bytes, or nothing when the text is not valid base64.
pub uninterp spec fn base64_decode_lenient(text: Seq<char>) -> Option<Seq<u8>>;

/// Decodes `text` with `base64::decode_config` and
/// `Config::new(CharacterSet::Standard, true, true, LineWrap::NoWrap)`.
/// The contract names the result `base64_decode_lenient` of the text, and
/// states one fact of the decoder: when the text, once the skipped
/// whitespace is removed, is the standard encoding of some bytes, those
/// bytes come back. It does not state which other texts decode, nor to
/// what. The bound on the length keeps the decoder's size estimate from
/// overflowing.
#[verifier::external_body]
fn base64_decode_text(text: &str) -> (r: Option<Vec<u8>>)
    requires
        text.spec_bytes().len() <= usize::MAX / 4,
    ensures
        r matches Some(v) ==> base64_decode_lenient(text@) == Some(v@),
        r is None ==> base64_decode_lenient(text@) is None,
        r is None ==> !exists|d: Seq<u8>| #[trigger] base64_encode(d) == strip_b64_space(text@),
        r matches Some(v) ==> (base64_encode(v@) == strip_b64_space(text@) || !exists|d: Seq<u8>|
            #[trigger] base64_encode(d) == strip_b64_space(text@)),
{
    let conf = base64::Config::new(
        base64::CharacterSet::Standard,
        true,
        true,
        base64::LineWrap::NoWrap,
    );
    base64::decode_config(text, conf).ok()
}

proof fn lemma_b64_digit(v: int)
    requires
        0 <= v < 64,
    ensures
        b64_digit(v) != '=',
        b64_digit(v) != ',',
        !is_b64_space(b64_digit(v)),
        b64_digit(v) as int == if v < 26 {
            65 + v
        } else if v < 52 {
            97 + (v - 26)
        } else if v < 62 {
            48 + (v - 52)
        } else if v == 62 {
            43
        } else {
            47
        },
{
}

proof fn lemma_b64_digit_injective(a: int, b: int)
    requires
        0 <= a < 64,
        0 <= b < 64,
        b64_digit(a) == b64_digit(b),
    ensures
        a == b,
{
    lemma_b64_digit(a);
    lemma_b64_digit(b);
}


proof fn lemma_encode_chars(d: Seq<u8>)
    ensures
        base64_encode(d).len() == 0 <==> d.len() == 0,
        forall|i: int|
            0 <= i < base64_encode(d).len() ==> !is_b64_space(#[trigger] base64_encode(d)[i])
                && base64_encode(d)[i] != ',',
    decreases d.len(),
{
    if d.len() > 0 {
        let b0 = d[0] as int;
        let b1 = if d.len() > 1 { d[1] as int } else { 0 };
        let b2 = if d.len() > 2 { d[2] as int } else { 0 };
        lemma_b64_digit(b0 / 4);
        lemma_b64_digit((b0 % 4) * 16 + b1 / 16);
        lemma_b64_digit((b1 % 16) * 4 + b2 / 64);
        lemma_b64_digit(b2 % 64);
        if d.len() > 2 {
            lemma_encode_chars(d.skip(3));
            let g = seq![
                b64_digit(b0 / 4),
                b64_digit((b0 % 4) * 16 + b1 / 16),
                b64_digit((b1 % 16) * 4 + b2 / 64),
                b64_digit(b2 % 64),
            ];
            assert forall|i: int| 0 <= i < base64_encode(d).len() implies !is_b64_space(
                #[trigger] base64_encode(d)[i],
            ) && base64_encode(d)[i] != ',' by {
                if i >= 4 {
                    assert(base64_encode(d)[i] == base64_encode(d.skip(3))[i - 4]);
                }
            }
        }
    }
}

proof fn lemma_strip_encoded(d: Seq<u8>)
    ensures
        strip_b64_space(seq![' '] + base64_encode(d)) == base64_encode(d),
{
    lemma_encode_chars(d);
    let e = base64_encode(d);
    assert((seq![' '] + e).drop_first() =~= e);
    lemma_strip_no_space(e);
}

proof fn lemma_strip_no_space(s: Seq<char>)
    requires
        forall|i: int| 0 <= i < s.len() ==> !is_b64_space(#[trigger] s[i]),
    ensures
        strip_b64_space(s) == s,
    decreases s.len(),
{
    if s.len() > 0 {
        assert forall|i: int| 0 <= i < s.drop_first().len() implies !is_b64_space(
            #[trigger] s.drop_first()[i],
        ) by {
            assert(s.drop_first()[i] == s[i + 1]);
        }
        lemma_strip_no_space(s.drop_first());
        assert(s =~= seq![s[0]] + s.drop_first());
    }
}

proof fn lemma_encode_head(d: Seq<u8>)
    requires
        d.len() > 0,
    ensures
        ({
            let b0 = d[0] as int;
            let b1 = if d.len() > 1 { d[1] as int } else { 0 };
            let b2 = if d.len() > 2 { d[2] as int } else { 0 };
            let e = base64_encode(d);
            &&& e.len() >= 4
            &&& e[0] == b64_digit(b0 / 4)
            &&& e[1] == b64_digit((b0 % 4) * 16 + b1 / 16)
            &&& d.len() >= 2 ==> e[2] == b64_digit((b1 % 16) * 4 + b2 / 64)
            &&& d.len() >= 3 ==> e[3] == b64_digit(b2 % 64)
        }),
{
}

proof fn lemma_encode_injective(a: Seq<u8>, b: Seq<u8>)
    requires
        base64_encode(a) == base64_encode(b),
    ensures
        a == b,
    decreases a.len(),
{
    lemma_encode_chars(a);
    lemma_encode_chars(b);
    if a.len() == 0 {
        assert(b.len() == 0);
        assert(a =~= b);
    } else {
        let ea = base64_encode(a);
        let a0 = a[0] as int;
        let a1 = if a.len() > 1 { a[1] as int } else { 0 };
        let a2 = if a.len() > 2 { a[2] as int } else { 0 };
        let b0 = b[0] as int;
        let b1 = if b.len() > 1 { b[1] as int } else { 0 };
        let b2 = if b.len() > 2 { b[2] as int } else { 0 };
        lemma_b64_digit((a1 % 16) * 4 + a2 / 64);
        lemma_b64_digit(a2 % 64);
        lemma_encode_head(a);
        lemma_encode_head(b);
        lemma_b64_digit((b1 % 16) * 4 + b2 / 64);
        lemma_b64_digit(b2 % 64);
        // The padding tells how many bytes the first group holds.
        assert(a.len() == 1 <==> b.len() == 1);
        assert(a.len() == 2 <==> b.len() == 2);
        lemma_b64_digit_injective(a0 / 4, b0 / 4);
        lemma_b64_digit_injective((a0 % 4) * 16 + a1 / 16, (b0 % 4) * 16 + b1 / 16);
        assert(a0 == b0);
        if a.len() == 1 {
            assert(a =~= b);
        } else {
            lemma_b64_digit_injective((a1 % 16) * 4 + a2 / 64, (b1 % 16) * 4 + b2 / 64);
            assert(a1 == b1);
            if a.len() == 2 {
                assert(a =~= b);
            } else {
                lemma_b64_digit_injective(a2 % 64, b2 % 64);
                assert(a2 == b2);
                assert(base64_encode(a.skip(3)) =~= ea.skip(4));
                assert(base64_encode(b.skip(3)) =~= ea.skip(4));
                lemma_encode_injective(a.skip(3), b.skip(3));
                assert(a =~= b) by {
                    assert forall|i: int| 0 <= i < a.len() implies a[i] == b[i] by {
                        if i >= 3 {
                            assert(a[i] == a.skip(3)[i - 3]);
                            assert(b[i] == b.skip(3)[i - 3]);
                        }
                    }
                }
            }
        }
    }
}

/// The format of an embedded image.
#[derive(Clone, Copy, PartialEq, Eq, Structural)]
pub enum ImageDataKind {
    PNG,
    JPEG,
}

/// What an `xlink:href` of an image refers to.
pub enum HrefData {
    /// Embedded image bytes.
    Raw(Vec<u8>, ImageDataKind),
    /// A `data:image` URL that cannot be used.
    Invalid,
    /// Anything else: a file path, to be resolved against the file system.
    External,
}

/// The view of an [`HrefData`].
pub enum HrefDataView {
    Raw(Seq<u8>, ImageDataKind),
    Invalid,
    External,
}

impl View for HrefData {
    type V = HrefDataView;

    open spec fn view(&self) -> HrefDataView {
        match self {
            HrefData::Raw(d, k) => HrefDataView::Raw(d@, *k),
            HrefData::Invalid => HrefDataView::Invalid,
            HrefData::External => HrefDataView::External,
        }
    }
}

/// The format that the media-type part of a `data:` URL (what precedes
/// the first comma) names: `image/jpg` before `image/png`.
pub open spec fn data_kind_of(prefix: Seq<char>) -> Option<ImageDataKind> {
    if contains_seq(prefix, "image/jpg"@) {
        Some(ImageDataKind::JPEG)
    } else if contains_seq(prefix, "image/png"@) {
        Some(ImageDataKind::PNG)
    } else {
        None
    }
}

/// How an href splits before its payload is decoded.
pub enum DataHrefParts {
    /// Not a `data:image` URL.
    External,
    /// A `data:image` URL without a comma, or of another format.
    Invalid,
    /// A `data:image` URL of this format whose base64 payload starts at
    /// this character.
    Embedded(ImageDataKind, usize),
}

/// The parts of an href: not a `data:image` URL; one without a comma or of
/// an unknown format; or the format and where the payload starts (just
/// after the first comma).
pub open spec fn data_href_parts_of(href: Seq<char>) -> (bool, Option<(ImageDataKind, int)>) {
    if !starts_with_seq(href, "data:image"@) {
        (false, None)
    } else {
        match first_index_of(href, ',') {
            None => (true, None),
            Some(idx) => match data_kind_of(href.take(idx)) {
                Some(kind) => (true, Some((kind, idx + 1))),
                None => (true, None),
            },
        }
    }
}

/// Splits an href before decoding.
pub fn data_href_parts(href: &str) -> (r: DataHrefParts)
    ensures
        !data_href_parts_of(href@).0 <==> r is External,
        match data_href_parts_of(href@).1 {
            Some((kind, start)) => r == DataHrefParts::Embedded(kind, start as usize) && 0 <= start
                <= href@.len(),
            None => !(r is Embedded),
        },
{
    if !str_starts_with(href, "data:image") {
        return DataHrefParts::External;
    }
    let v = chars_of(href);
    match find_char_from(&v, ',', 0) {
        None => {
            proof {
                lemma_first_index_of_none(href@, ',');
            }
            DataHrefParts::Invalid
        },
        Some(idx) => {
            proof {
                lemma_first_index_of_is(href@, ',', idx as int);
            }
            let prefix = href.substring_char(0, idx);
            proof {
                assert(prefix@ =~= href@.take(idx as int));
            }
            if str_contains(prefix, "image/jpg") {
                DataHrefParts::Embedded(ImageDataKind::JPEG, idx + 1)
            } else if str_contains(prefix, "image/png") {
                DataHrefParts::Embedded(ImageDataKind::PNG, idx + 1)
            } else {
                DataHrefParts::Invalid
            }
        },
    }
}

/// What an href refers to, given its decoded payload where it has one.
pub open spec fn href_data_of(href: Seq<char>) -> HrefDataView {
    let (is_data, parts) = data_href_parts_of(href);
    if !is_data {
        HrefDataView::External
    } else {
        match parts {
            None => HrefDataView::Invalid,
            Some((kind, start)) => match base64_decode_lenient(href.skip(start)) {
                Some(d) => HrefDataView::Raw(d, kind),
                None => HrefDataView::Invalid,
            },
        }
    }
}

proof fn lemma_encode_utf8_len(s: Seq<char>)
    ensures
        vstd::utf8::encode_utf8(s).len() <= 4 * s.len(),
    decreases s.len(),
{
    if s.len() > 0 {
        lemma_encode_utf8_len(s.drop_first());
    }
}

/// What an image's `xlink:href` refers to: a `data:image` URL whose
/// media type names `image/jpg` or `image/png` and whose payload after the
/// first comma decodes as base64 gives the bytes; any other `data:image`
/// URL is invalid; anything else is an external reference.
pub fn get_href_data(href: &str) -> (r: HrefData)
    requires
        href@.len() <= usize::MAX / 16,
    ensures
        r@ == href_data_of(href@),
        forall|d: Seq<u8>, f: ImageFormat|
            #[trigger] image_href_of(d, f) == href@ ==> r@ == written_href_view(d, f),
        forall|d: Seq<u8>|
            data_href_parts_of(href@).1 matches Some((kind, start)) ==> (#[trigger] base64_encode(d)
                == strip_b64_space(href@.skip(start)) ==> r@ == HrefDataView::Raw(d, kind)),
{
    match data_href_parts(href) {
        DataHrefParts::External => {
            proof {
                assert forall|d: Seq<u8>, f: ImageFormat|
                    #[trigger] image_href_of(d, f) == href@ implies false by {
                    lemma_written_href_parts(d, f);
                }
            }
            HrefData::External
        },
        DataHrefParts::Invalid => {
            proof {
                assert forall|d: Seq<u8>, f: ImageFormat|
                    #[trigger] image_href_of(d, f) == href@ implies HrefDataView::Invalid
                    == written_href_view(d, f) by {
                    lemma_written_href_parts(d, f);
                }
            }
            HrefData::Invalid
        },
        DataHrefParts::Embedded(kind, start) => {
            proof {
                let parts = data_href_parts_of(href@).1;
                assert(parts is Some);
                let (k, st) = parts->0;
                assert(DataHrefParts::Embedded(kind, start) == DataHrefParts::Embedded(
                    k,
                    st as usize,
                ));
                assert(0 <= st <= href@.len());
            }
            let base_data = href.substring_char(start, href.unicode_len());
            proof {
                assert(base_data@ =~= href@.skip(start as int));
                lemma_encode_utf8_len(base_data@);
                assert(base_data.spec_bytes() == vstd::utf8::encode_utf8(base_data@));
            }
            let decoded = base64_decode_text(base_data);
            proof {
                assert forall|d: Seq<u8>, f: ImageFormat|
                    #[trigger] image_href_of(d, f) == href@ implies (match decoded {
                    Some(v) => HrefDataView::Raw(v@, kind),
                    None => HrefDataView::Invalid,
                }) == written_href_view(d, f) by {
                    lemma_written_href_parts(d, f);
                    lemma_strip_encoded(d);
                    assert(base64_encode(d) == strip_b64_space(base_data@));
                    let v = decoded->0;
                    lemma_encode_injective(v@, d);
                }
            }
            proof {
                assert forall|d: Seq<u8>| #[trigger]
                    base64_encode(d) == strip_b64_space(base_data@) implies (match decoded {
                    Some(v) => HrefDataView::Raw(v@, kind),
                    None => HrefDataView::Invalid,
                }) == HrefDataView::Raw(d, kind) by {
                    let v = decoded->0;
                    lemma_encode_injective(v@, d);
                }
            }
            match decoded {
                Some(data) => HrefData::Raw(data, kind),
                None => HrefData::Invalid,
            }
        },
    }
}

/// The first bytes of a PNG file.
pub open spec fn png_magic() -> Seq<u8> {
    seq![0x89u8, 0x50u8, 0x4eu8, 0x47u8, 0x0du8, 0x0au8, 0x1au8, 0x0au8]
}

/// The first bytes of a JPEG file.
pub open spec fn jpeg_magic() -> Seq<u8> {
    seq![0xffu8, 0xd8u8, 0xffu8]
}

fn starts_with_bytes(d: &[u8], prefix: &[u8]) -> (r: bool)
    ensures
        r == (prefix@.len() <= d@.len() && d@.subrange(0, prefix@.len() as int) == prefix@),
{
    if prefix.len() > d.len() {
        return false;
    }
    let mut i: usize = 0;
    while i < prefix.len()
        invariant
            prefix@.len() <= d@.len(),
            i <= prefix@.len(),
            forall|j: int| 0 <= j < i ==> d@[j] == prefix@[j],
        decreases prefix@.len() - i,
    {
        if d[i] != prefix[i] {
            assert(d@.subrange(0, prefix@.len() as int)[i as int] != prefix@[i as int]);
            return false;
        }
        i += 1;
    }
    assert(d@.subrange(0, prefix@.len() as int) =~= prefix@);
    true
}

/// Whether the first bytes of a file are those of a PNG or a JPEG image.
pub fn is_valid_image_header(d: &[u8]) -> (r: bool)
    ensures
        r == ((png_magic().len() <= d@.len() && d@.subrange(0, png_magic().len() as int)
            == png_magic()) || (jpeg_magic().len() <= d@.len() && d@.subrange(
            0,
            jpeg_magic().len() as int,
        ) == jpeg_magic())),
{
    let png: [u8; 8] = [0x89, 0x50, 0x4e, 0x47, 0x0d, 0x0a, 0x1a, 0x0a];
    let jpeg: [u8; 3] = [0xff, 0xd8, 0xff];
    assert(png@ =~= png_magic());
    assert(jpeg@ =~= jpeg_magic());
    starts_with_bytes(d, &png) || starts_with_bytes(d, &jpeg)
}

/// The format of an image that is written back into an SVG.
#[derive(Clone, Copy, PartialEq, Eq, Structural)]
pub enum ImageFormat {
    PNG,
    JPEG,
    SVG,
}

/// The data of an image: a path, or the raw file contents.
pub enum ImageData {
    Path(String),
    Raw(Vec<u8>),
}

/// The media subtype that a `data:` URL gives for a format.
pub open spec fn subtype_of(format: ImageFormat) -> Seq<char> {
    match format {
        ImageFormat::PNG => "png"@,
        ImageFormat::JPEG => "jpg"@,
        ImageFormat::SVG => "svg+xml"@,
    }
}

/// The `xlink:href` that refers to an image: its path, or a `data:` URL
/// that embeds its bytes in base64.
pub open spec fn image_href_of(data: Seq<u8>, format: ImageFormat) -> Seq<char> {
    "data:image/"@ + subtype_of(format) + ";base64, "@ + base64_encode(data)
}

/// The `xlink:href` value that writes an image.
pub fn conv_image_data(data: &ImageData, format: ImageFormat) -> (r: String)
    requires
        data matches ImageData::Raw(d) ==> d@.len() <= usize::MAX / 2,
    ensures
        match data {
            ImageData::Path(p) => r@ == p@,
            ImageData::Raw(d) => r@ == image_href_of(d@, format),
        },
{
    match data {
        ImageData::Path(p) => p.clone(),
        ImageData::Raw(d) => {
            let mut s = String::from_str("data:image/");
            match format {
                ImageFormat::PNG => s.append("png"),
                ImageFormat::JPEG => s.append("jpg"),
                ImageFormat::SVG => s.append("svg+xml"),
            }
            s.append(";base64, ");
            let enc = base64_encode_bytes(d.as_slice());
            s.append(enc.as_str());
            s
        },
    }
}

/// What reading back an href written for `data` in `format` gives: the
/// bytes, with the kind that the format names, for PNG and JPEG; an
/// invalid reference for SVG, which the reader does not embed.
pub open spec fn written_href_view(data: Seq<u8>, format: ImageFormat) -> HrefDataView {
    match format {
        ImageFormat::PNG => HrefDataView::Raw(data, ImageDataKind::PNG),
        ImageFormat::JPEG => HrefDataView::Raw(data, ImageDataKind::JPEG),
        ImageFormat::SVG => HrefDataView::Invalid,
    }
}

proof fn lemma_no_char_no_occurrence(hay: Seq<char>, needle: Seq<char>, k: int)
    requires
        0 <= k < needle.len(),
        forall|j: int| 0 <= j < hay.len() ==> hay[j] != needle[k],
    ensures
        !contains_seq(hay, needle),
{
    assert forall|i: int| !occurs_at(hay, needle, i) by {
        if occurs_at(hay, needle, i) {
            assert(hay.subrange(i, i + needle.len())[k] == needle[k]);
        }
    }
}

/// How a written href splits: it is a `data:image` URL whose first comma
/// follows the media type, and whose payload is a space and the base64
/// text.
proof fn lemma_written_href_parts(data: Seq<u8>, format: ImageFormat)
    ensures
        ({
            let href = image_href_of(data, format);
            let start: int = 11 + subtype_of(format).len() as int + 8;
            &&& data_href_parts_of(href) == (true, match format {
                ImageFormat::PNG => Some((ImageDataKind::PNG, start)),
                ImageFormat::JPEG => Some((ImageDataKind::JPEG, start)),
                ImageFormat::SVG => None::<(ImageDataKind, int)>,
            })
            &&& href.skip(start) == seq![' '] + base64_encode(data)
        }),
{
    reveal_strlit("data:image/");
    reveal_strlit("data:image");
    reveal_strlit(";base64, ");
    reveal_strlit("png");
    reveal_strlit("jpg");
    reveal_strlit("svg+xml");
    reveal_strlit("image/jpg");
    reveal_strlit("image/png");
    let sub = subtype_of(format);
    let enc = base64_encode(data);
    let href = image_href_of(data, format);
    let head = "data:image/"@ + sub + ";base64, "@;
    let comma: int = 11 + sub.len() as int + 7;
    assert(href == head + enc);
    assert(head.len() == comma + 2);
    assert(href.subrange(0, 10) =~= "data:image"@);
    assert(starts_with_seq(href, "data:image"@));
    lemma_encode_chars(data);
    assert(href[comma] == ',');
    assert forall|j: int| 0 <= j < comma implies href[j] != ',' by {
        assert(href[j] == head[j]);
    }
    lemma_first_index_of_is(href, ',', comma);
    let prefix = href.take(comma);
    assert(prefix =~= "data:image/"@ + sub + ";base64"@) by {
        reveal_strlit(";base64");
    }
    reveal_strlit(";base64");
    match format {
        ImageFormat::PNG => {
            lemma_no_char_no_occurrence(prefix, "image/jpg"@, 6);
            assert(prefix.subrange(5, 14) =~= "image/png"@);
            assert(occurs_at(prefix, "image/png"@, 5));
        },
        ImageFormat::JPEG => {
            assert(prefix.subrange(5, 14) =~= "image/jpg"@);
            assert(occurs_at(prefix, "image/jpg"@, 5));
        },
        ImageFormat::SVG => {
            lemma_no_char_no_occurrence(prefix, "image/jpg"@, 6);
            lemma_no_char_no_occurrence(prefix, "image/png"@, 7);
        },
    }
    assert(href.skip(comma + 1) =~= seq![' '] + enc);
}

} // verus!
