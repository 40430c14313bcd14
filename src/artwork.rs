//! Artwork locators: which source a locator names, and percent-decoding of
//! local file paths. Reading the file or fetching the URL happens outside.
use vstd::prelude::*;
use vstd::utf8::{
    encode_scalar, encode_utf8, has_width_1_encoding, has_width_2_encoding, has_width_3_encoding,
};
use crate::text::{chars_of, has_prefix, starts_with, string_from};

verus! {

/// ASCII `%`.
pub const PERCENT: u8 = 0x25;
/// ASCII `0`.
pub const DIGIT_ZERO: u8 = 0x30;
/// ASCII `9`.
pub const DIGIT_NINE: u8 = 0x39;
/// ASCII `a`.
pub const LOWER_A: u8 = 0x61;
/// ASCII `f`.
pub const LOWER_F: u8 = 0x66;
/// ASCII `A`.
pub const UPPER_A: u8 = 0x41;
/// ASCII `F`.
pub const UPPER_F: u8 = 0x46;

/// Value of one hexadecimal digit, given as its ASCII byte, either case.
pub open spec fn hex_value(b: u8) -> Option<u8> {
    if DIGIT_ZERO <= b && b <= DIGIT_NINE {
        Some((b - DIGIT_ZERO) as u8)
    } else if LOWER_A <= b && b <= LOWER_F {
        Some((b - LOWER_A + 10) as u8)
    } else if UPPER_A <= b && b <= UPPER_F {
        Some((b - UPPER_A + 10) as u8)
    } else {
        None
    }
}

/// Whether `s` starts with a well-formed `%XX` escape.
pub open spec fn starts_with_escape(s: Seq<u8>) -> bool {
    s.len() >= 3 && s[0] == PERCENT && hex_value(s[1]) is Some && hex_value(s[2]) is Some
}

/// The byte a well-formed escape stands for.
pub open spec fn escape_byte(s: Seq<u8>) -> u8 {
    (hex_value(s[1])->0 * 16 + hex_value(s[2])->0) as u8
}

/// Percent-decoding of a byte string: each `%XX` escape becomes the byte it
/// names; every other byte, malformed escapes included, is kept as it is.
pub open spec fn percent_decode(s: Seq<u8>) -> Seq<u8>
    decreases s.len(),
{
    if s.len() == 0 {
        Seq::empty()
    } else if starts_with_escape(s) {
        seq![escape_byte(s)] + percent_decode(s.subrange(3, s.len() as int))
    } else {
        seq![s[0]] + percent_decode(s.drop_first())
    }
}

fn hex_digit_value(b: u8) -> (r: Option<u8>)
    ensures
        r == hex_value(b),
{
    if DIGIT_ZERO <= b && b <= DIGIT_NINE {
        Some(b - DIGIT_ZERO)
    } else if LOWER_A <= b && b <= LOWER_F {
        Some(b - LOWER_A + 10)
    } else if UPPER_A <= b && b <= UPPER_F {
        Some(b - UPPER_A + 10)
    } else {
        None
    }
}

/// Decodes the `%XX` escapes of a file path. The result is the path's bytes:
/// an escape gives the byte it names, any other character its UTF-8 bytes.
pub fn url_decode(input: &str) -> (r: Vec<u8>)
    ensures
        r@ == percent_decode(encode_utf8(input@)),
{
    let b = input.as_bytes();
    let mut out: Vec<u8> = Vec::new();
    let mut i: usize = 0;
    assert(b@.subrange(0, b@.len() as int) =~= b@);
    while i < b.len()
        invariant
            b@ == encode_utf8(input@),
            i <= b@.len(),
            percent_decode(b@) == out@ + percent_decode(b@.subrange(i as int, b@.len() as int)),
        decreases b@.len() - i,
    {
        let ghost rest = b@.subrange(i as int, b@.len() as int);
        let mut decoded: Option<u8> = None;
        if b[i] == PERCENT && b.len() - i >= 3 {
            match (hex_digit_value(b[i + 1]), hex_digit_value(b[i + 2])) {
                (Some(hi), Some(lo)) => {
                    decoded = Some(hi * 16 + lo);
                },
                _ => {},
            }
        }
        match decoded {
            Some(x) => {
                assert(starts_with_escape(rest));
                assert(rest.subrange(3, rest.len() as int) =~= b@.subrange(
                    i + 3,
                    b@.len() as int,
                ));
                out.push(x);
                i = i + 3;
            },
            None => {
                assert(!starts_with_escape(rest));
                assert(rest.drop_first() =~= b@.subrange(i + 1, b@.len() as int));
                out.push(b[i]);
                i = i + 1;
            },
        }
        assert(out@ + percent_decode(b@.subrange(i as int, b@.len() as int)) =~= out@.drop_last()
            + (seq![out@.last()] + percent_decode(b@.subrange(i as int, b@.len() as int))));
    }
    out
}

/// Seconds allowed for connecting to, and for reading from, a remote artwork
/// server.
pub const ART_FETCH_TIMEOUT_SECS: u64 = 3;

/// Where a locator says the artwork is.
pub enum ArtSource {
    /// A local file, given by the bytes of its percent-decoded path.
    LocalFile(Vec<u8>),
    /// An HTTP or HTTPS URL, to fetch as it is.
    Remote(String),
    /// A scheme this resolver does not handle.
    Unsupported,
}

pub enum ArtSourceView {
    LocalFile(Seq<u8>),
    Remote(Seq<char>),
    Unsupported,
}

impl View for ArtSource {
    type V = ArtSourceView;

    open spec fn view(&self) -> ArtSourceView {
        match self {
            ArtSource::LocalFile(p) => ArtSourceView::LocalFile(p@),
            ArtSource::Remote(u) => ArtSourceView::Remote(u@),
            ArtSource::Unsupported => ArtSourceView::Unsupported,
        }
    }
}

/// The source a locator names: `file://` followed by a percent-encoded path,
/// an `http://` or `https://` URL, or anything else.
pub open spec fn art_source_of(locator: Seq<char>) -> ArtSourceView {
    if starts_with(locator, "file://"@) {
        ArtSourceView::LocalFile(
            percent_decode(
                encode_utf8(locator.subrange("file://"@.len() as int, locator.len() as int)),
            ),
        )
    } else if starts_with(locator, "http://"@) || starts_with(locator, "https://"@) {
        ArtSourceView::Remote(locator)
    } else {
        ArtSourceView::Unsupported
    }
}

/// Classifies an artwork locator; for a local file, strips the scheme and
/// decodes the path.
pub fn art_source(locator: &str) -> (r: ArtSource)
    ensures
        r@ == art_source_of(locator@),
{
    let cs = chars_of(locator);
    if has_prefix(&cs, "file://") {
        let scheme = chars_of("file://");
        let encoded = string_from(&cs, scheme.len());
        ArtSource::LocalFile(url_decode(encoded.as_str()))
    } else if has_prefix(&cs, "http://") || has_prefix(&cs, "https://") {
        ArtSource::Remote(locator.to_owned())
    } else {
        ArtSource::Unsupported
    }
}

/// The ASCII byte of a hexadecimal digit below sixteen, in lower or upper
/// case.
pub open spec fn hex_digit(d: u8, lower: bool) -> u8 {
    if d < 10 {
        (DIGIT_ZERO + d) as u8
    } else if lower {
        (LOWER_A + d - 10) as u8
    } else {
        (UPPER_A + d - 10) as u8
    }
}

/// The `%XX` escape of one byte.
pub open spec fn percent_escape(b: u8, lower: bool) -> Seq<u8> {
    seq![PERCENT, hex_digit(b / 16, lower), hex_digit(b % 16, lower)]
}

/// Percent-encoding of a path's bytes: `%` and every byte that `escape`
/// selects are written as `%XX`, with the digits' case chosen per byte by
/// `lower`; the other bytes are kept.
pub open spec fn percent_encode(
    p: Seq<u8>,
    escape: spec_fn(u8) -> bool,
    lower: spec_fn(u8) -> bool,
) -> Seq<u8>
    decreases p.len(),
{
    if p.len() == 0 {
        Seq::empty()
    } else {
        let b = p[0];
        let head = if b == PERCENT || escape(b) {
            percent_escape(b, lower(b))
        } else {
            seq![b]
        };
        head + percent_encode(p.drop_first(), escape, lower)
    }
}

proof fn lemma_escape_decodes(b: u8, lower: bool)
    ensures
        starts_with_escape(percent_escape(b, lower)),
        escape_byte(percent_escape(b, lower)) == b,
{
    assert(hex_value(hex_digit(b / 16, lower)) == Some(b / 16));
    assert(hex_value(hex_digit(b % 16, lower)) == Some(b % 16));
}

/// Decoding undoes encoding: whichever bytes of a path were escaped, and in
/// whichever case, decoding gives back exactly the path's bytes.
pub proof fn lemma_decode_encode(
    p: Seq<u8>,
    escape: spec_fn(u8) -> bool,
    lower: spec_fn(u8) -> bool,
)
    ensures
        percent_decode(percent_encode(p, escape, lower)) == p,
    decreases p.len(),
{
    if p.len() > 0 {
        let b = p[0];
        let rest = percent_encode(p.drop_first(), escape, lower);
        lemma_decode_encode(p.drop_first(), escape, lower);
        let e = percent_encode(p, escape, lower);
        if b == PERCENT || escape(b) {
            lemma_escape_decodes(b, lower(b));
            assert(e == percent_escape(b, lower(b)) + rest);
            assert(e.subrange(3, e.len() as int) =~= rest);
            assert(starts_with_escape(e));
        } else {
            assert(e == seq![b] + rest);
            assert(e.drop_first() =~= rest);
        }
        assert(p =~= seq![b] + p.drop_first());
    }
}

/// Bytes without any `%` decode to themselves.
pub proof fn lemma_decode_plain(s: Seq<u8>)
    requires
        !s.contains(PERCENT),
    ensures
        percent_decode(s) == s,
    decreases s.len(),
{
    if s.len() > 0 {
        assert(s.drop_first().contains(PERCENT) ==> s.contains(PERCENT));
        lemma_decode_plain(s.drop_first());
        assert(s =~= seq![s[0]] + s.drop_first());
    }
}

proof fn lemma_scalar_has_no_percent(c: char)
    requires
        c != '%',
    ensures
        !encode_scalar(c as u32).contains(PERCENT),
{
    let v = c as u32;
    let e = encode_scalar(v);
    assert(forall|x: u8| #![auto] (0x80u8 | x) != 0x25u8) by (bit_vector);
    assert(forall|x: u8| #![auto] (0xC0u8 | x) != 0x25u8) by (bit_vector);
    assert(forall|x: u8| #![auto] (0xE0u8 | x) != 0x25u8) by (bit_vector);
    assert(forall|x: u8| #![auto] (0xF0u8 | x) != 0x25u8) by (bit_vector);
    if has_width_1_encoding(v) {
        assert(v <= 0x7F ==> (v & 0x7F) == v) by (bit_vector);
        assert(v != 0x25);
        assert(e =~= seq![(v & 0x7F) as u8]);
        assert(e[0] != PERCENT);
    }
    assert forall|i: int| 0 <= i < e.len() implies e[i] != PERCENT by {
        if !has_width_1_encoding(v) {
            if has_width_2_encoding(v) {
                assert(i == 0 || i == 1);
            } else if has_width_3_encoding(v) {
                assert(0 <= i < 3);
            }
        }
    }
}

proof fn lemma_utf8_has_no_percent(s: Seq<char>)
    requires
        !s.contains('%'),
    ensures
        !encode_utf8(s).contains(PERCENT),
    decreases s.len(),
{
    if s.len() > 0 {
        assert(s.drop_first().contains('%') ==> s.contains('%'));
        assert(s[0] != '%');
        lemma_scalar_has_no_percent(s[0]);
        lemma_utf8_has_no_percent(s.drop_first());
        let head = encode_scalar(s[0] as u32);
        let tail = encode_utf8(s.drop_first());
        assert forall|i: int| 0 <= i < head.len() + tail.len() implies (head + tail)[i]
            != PERCENT by {
            if i < head.len() {
                assert((head + tail)[i] == head[i]);
            } else {
                assert((head + tail)[i] == tail[i - head.len()]);
            }
        }
    }
}

/// A path without any `%` decodes to its own UTF-8 bytes.
pub proof fn lemma_decode_plain_path(s: Seq<char>)
    requires
        !s.contains('%'),
    ensures
        percent_decode(encode_utf8(s)) == encode_utf8(s),
{
    lemma_utf8_has_no_percent(s);
    lemma_decode_plain(encode_utf8(s));
}

} // verus!
