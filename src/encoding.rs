use vstd::prelude::*;
use vstd::string::StringSliceAdditionalSpecFns;
use vstd::utf8::{decode_utf8, encode_utf8, encode_utf8_decode_utf8};

verus! {

/// The bytes that percent-encoding leaves as they are: ASCII letters,
/// digits and `-`, `.`, `_`, `~`.
pub open spec fn is_unreserved(b: u8) -> bool {
    (0x30 <= b && b <= 0x39) || (0x41 <= b && b <= 0x5a) || (0x61 <= b && b <= 0x7a) || b == 0x2d
        || b == 0x2e || b == 0x5f || b == 0x7e
}

/// The upper-case hexadecimal digits, by value.
pub open spec fn hex_digits() -> Seq<char> {
    seq!['0', '1', '2', '3', '4', '5', '6', '7', '8', '9', 'A', 'B', 'C', 'D', 'E', 'F']
}

/// The value of a hexadecimal digit of either case; 0 for any other character.
pub open spec fn hex_value(c: char) -> int {
    let v = c as u32;
    if 0x30 <= v && v <= 0x39 {
        v - 0x30
    } else if 0x41 <= v && v <= 0x46 {
        v - 0x41 + 10
    } else if 0x61 <= v && v <= 0x66 {
        v - 0x61 + 10
    } else {
        0
    }
}

/// One byte, percent-encoded: itself if unreserved, else `%` and two digits.
pub open spec fn percent_encode_byte(b: u8) -> Seq<char> {
    if is_unreserved(b) {
        seq![b as char]
    } else {
        seq!['%', hex_digits()[(b / 16) as int], hex_digits()[(b % 16) as int]]
    }
}

/// A byte string, percent-encoded byte by byte.
pub open spec fn percent_encode(bytes: Seq<u8>) -> Seq<char>
    decreases bytes.len(),
{
    if bytes.len() == 0 {
        Seq::empty()
    } else {
        percent_encode_byte(bytes[0]) + percent_encode(bytes.drop_first())
    }
}

/// Percent-decoding: `%` followed by two more characters stands for one
/// byte, any other character for its own code.
pub open spec fn percent_decode(s: Seq<char>) -> Seq<u8>
    decreases s.len(),
{
    if s.len() == 0 {
        Seq::empty()
    } else if s[0] == '%' && s.len() >= 3 {
        seq![(hex_value(s[1]) * 16 + hex_value(s[2])) as u8] + percent_decode(s.skip(3))
    } else {
        seq![s[0] as u8] + percent_decode(s.drop_first())
    }
}

/// What precedes the payload of an HTML data URL.
pub open spec fn html_data_url_prefix() -> Seq<char> {
    seq!['d', 'a', 't', 'a', ':', 't', 'e', 'x', 't', '/', 'h', 't', 'm', 'l', ',']
}

/// The data URL that carries the given HTML text.
pub open spec fn html_data_url_of(html: Seq<char>) -> Seq<char> {
    html_data_url_prefix() + percent_encode(encode_utf8(html))
}

/// The HTML text that a data URL carries: its payload, percent-decoded once
/// and read as UTF-8.
pub open spec fn html_content_of(url: Seq<char>) -> Seq<char> {
    decode_utf8(percent_decode(url.skip(html_data_url_prefix().len() as int)))
}

proof fn lemma_hex_round_trip(b: u8)
    ensures
        hex_value(hex_digits()[(b / 16) as int]) * 16 + hex_value(hex_digits()[(b % 16) as int])
            == b,
{
    assert forall|d: int| 0 <= d < 16 implies hex_value(#[trigger] hex_digits()[d]) == d by {
        assert(hex_digits()[d] as u32 == if d < 10 { 0x30 + d } else { 0x41 + d - 10 });
    }
}

proof fn lemma_decode_encode_byte(b: u8, rest: Seq<char>)
    ensures
        percent_decode(percent_encode_byte(b) + rest) == seq![b] + percent_decode(rest),
{
    let s = percent_encode_byte(b) + rest;
    if is_unreserved(b) {
        assert(s[0] == b as char);
        assert(s.drop_first() =~= rest);
    } else {
        lemma_hex_round_trip(b);
        assert(s.skip(3) =~= rest);
    }
}

/// Percent-decoding undoes percent-encoding.
pub proof fn lemma_percent_round_trip(bytes: Seq<u8>)
    ensures
        percent_decode(percent_encode(bytes)) == bytes,
    decreases bytes.len(),
{
    if bytes.len() > 0 {
        lemma_decode_encode_byte(bytes[0], percent_encode(bytes.drop_first()));
        lemma_percent_round_trip(bytes.drop_first());
        assert(seq![bytes[0]] + bytes.drop_first() =~= bytes);
    }
}

/// Loading HTML through its data URL shows exactly that HTML: the payload,
/// percent-decoded once, is the text that was encoded.
pub proof fn lemma_data_url_carries_html(html: Seq<char>)
    ensures
        html_content_of(html_data_url_of(html)) == html,
{
    let payload = percent_encode(encode_utf8(html));
    assert(html_data_url_of(html).skip(html_data_url_prefix().len() as int) =~= payload);
    lemma_percent_round_trip(encode_utf8(html));
    encode_utf8_decode_utf8(html);
}

/// Relies on urlencoding::encode, which percent-encodes every byte of the
/// text's UTF-8 form except ASCII letters, digits and `-`, `.`, `_`, `~`,
/// with upper-case hexadecimal digits.
#[verifier::external_body]
fn url_encode(s: &str) -> (r: String)
    ensures
        r@ == percent_encode(s.spec_bytes()),
{
    urlencoding::encode(s).into_owned()
}

/// The data URL under which the view shows `html`: `data:text/html,`
/// followed by the percent-encoded text.
pub fn html_data_url(html: &str) -> (r: String)
    ensures
        r@ == html_data_url_of(html@),
{
    let payload = url_encode(html);
    let mut url = String::from_str("data:text/html,");
    proof {
        reveal_strlit("data:text/html,");
    }
    url.append(payload.as_str());
    assert(url@ =~= html_data_url_of(html@));
    url
}

} // verus!
