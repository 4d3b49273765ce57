//! Data-URI encoder: the replacement text for a loaded resource.

use vstd::prelude::*;
use vstd::string::*;

verus! {

/// The character that stands for the six-bit value `v` in the standard
/// base64 alphabet: `A`-`Z`, `a`-`z`, `0`-`9`, `+`, `/`.
pub open spec fn digit(v: int) -> char {
    if v < 26 {
        ('A' as int + v) as char
    } else if v < 52 {
        ('a' as int + (v - 26)) as char
    } else if v < 62 {
        ('0' as int + (v - 52)) as char
    } else if v == 62 {
        '+'
    } else {
        '/'
    }
}

/// The six-bit value that `c` stands for, if `c` is a character of the
/// standard base64 alphabet.
pub open spec fn sextet(c: char) -> Option<int> {
    if 'A' <= c <= 'Z' {
        Some(c as int - 'A' as int)
    } else if 'a' <= c <= 'z' {
        Some(c as int - 'a' as int + 26)
    } else if '0' <= c <= '9' {
        Some(c as int - '0' as int + 52)
    } else if c == '+' {
        Some(62)
    } else if c == '/' {
        Some(63)
    } else {
        None
    }
}

/// The four characters that encode the three bytes of a full group.
pub open spec fn full_group(b0: u8, b1: u8, b2: u8) -> Seq<char> {
    seq![
        digit(b0 as int / 4),
        digit((b0 as int % 4) * 16 + b1 as int / 16),
        digit((b1 as int % 16) * 4 + b2 as int / 64),
        digit(b2 as int % 64),
    ]
}

/// Standard base64 of `bytes`, with padding: each group of three bytes gives
/// four characters, and a last group of one or two bytes is filled up with
/// zero bits and closed with `==` or `=`.
pub open spec fn base64_text(bytes: Seq<u8>) -> Seq<char>
    decreases bytes.len(),
{
    if bytes.len() == 0 {
        Seq::empty()
    } else if bytes.len() == 1 {
        seq![digit(bytes[0] as int / 4), digit((bytes[0] as int % 4) * 16), '=', '=']
    } else if bytes.len() == 2 {
        seq![
            digit(bytes[0] as int / 4),
            digit((bytes[0] as int % 4) * 16 + bytes[1] as int / 16),
            digit((bytes[1] as int % 16) * 4),
            '=',
        ]
    } else {
        full_group(bytes[0], bytes[1], bytes[2]) + base64_text(bytes.skip(3))
    }
}

/// The bytes that a padded standard base64 text stands for, or `None` where
/// the text is not the encoding of any byte sequence.
pub open spec fn base64_bytes(text: Seq<char>) -> Option<Seq<u8>>
    decreases text.len(),
{
    if text.len() == 0 {
        Some(Seq::empty())
    } else if text.len() < 4 {
        None
    } else {
        match (sextet(text[0]), sextet(text[1])) {
            (Some(s0), Some(s1)) => {
                let b0 = (s0 * 4 + s1 / 16) as u8;
                if text.len() == 4 && text[2] == '=' && text[3] == '=' {
                    if s1 % 16 == 0 {
                        Some(seq![b0])
                    } else {
                        None
                    }
                } else {
                    match sextet(text[2]) {
                        Some(s2) => {
                            let b1 = ((s1 % 16) * 16 + s2 / 4) as u8;
                            if text.len() == 4 && text[3] == '=' {
                                if s2 % 4 == 0 {
                                    Some(seq![b0, b1])
                                } else {
                                    None
                                }
                            } else {
                                match (sextet(text[3]), base64_bytes(text.skip(4))) {
                                    (Some(s3), Some(rest)) => {
                                        let b2 = ((s2 % 4) * 64 + s3) as u8;
                                        Some(seq![b0, b1, b2] + rest)
                                    },
                                    _ => None,
                                }
                            }
                        },
                        None => None,
                    }
                }
            },
            _ => None,
        }
    }
}

/// The `data:` URI that carries `bytes` under `media_type`.
pub open spec fn data_uri(media_type: Seq<char>, bytes: Seq<u8>) -> Seq<char> {
    "data:"@ + media_type + ";base64,"@ + base64_text(bytes)
}

/// The replacement for a loaded resource, given as its bytes and its media
/// type; absence stays absence.
pub open spec fn encoded_replacement(resource: Option<(Seq<u8>, Seq<char>)>) -> Option<Seq<char>> {
    match resource {
        Some((bytes, media_type)) => Some(data_uri(media_type, bytes)),
        None => None,
    }
}

/// Every six-bit value is found again from its character.
pub proof fn lemma_sextet_of_digit(v: int)
    requires
        0 <= v < 64,
    ensures
        sextet(digit(v)) == Some(v),
        digit(v) != '=',
{
}

/// The length of a base64 text is four characters for every started group of
/// three bytes.
pub proof fn lemma_base64_text_len(bytes: Seq<u8>)
    ensures
        base64_text(bytes).len() == 4 * ((bytes.len() + 2) / 3),
    decreases bytes.len(),
{
    if bytes.len() >= 3 {
        lemma_base64_text_len(bytes.skip(3));
    }
}

/// Decoding the base64 text of `bytes` gives `bytes` back.
pub proof fn lemma_base64_round_trip(bytes: Seq<u8>)
    ensures
        base64_bytes(base64_text(bytes)) == Some(bytes),
    decreases bytes.len(),
{
    let text = base64_text(bytes);
    if bytes.len() == 0 {
        assert(bytes =~= Seq::empty());
    } else if bytes.len() == 1 {
        let b0 = bytes[0] as int;
        lemma_sextet_of_digit(b0 / 4);
        lemma_sextet_of_digit((b0 % 4) * 16);
        assert(bytes =~= seq![bytes[0]]);
    } else if bytes.len() == 2 {
        let b0 = bytes[0] as int;
        let b1 = bytes[1] as int;
        lemma_sextet_of_digit(b0 / 4);
        lemma_sextet_of_digit((b0 % 4) * 16 + b1 / 16);
        lemma_sextet_of_digit((b1 % 16) * 4);
        assert(bytes =~= seq![bytes[0], bytes[1]]);
    } else {
        let b0 = bytes[0] as int;
        let b1 = bytes[1] as int;
        let b2 = bytes[2] as int;
        let tail = bytes.skip(3);
        lemma_sextet_of_digit(b0 / 4);
        lemma_sextet_of_digit((b0 % 4) * 16 + b1 / 16);
        lemma_sextet_of_digit((b1 % 16) * 4 + b2 / 64);
        lemma_sextet_of_digit(b2 % 64);
        lemma_base64_round_trip(tail);
        lemma_base64_text_len(tail);
        assert(text.skip(4) =~= base64_text(tail));
        assert(text.len() == 4 + base64_text(tail).len());
        assert(text[3] != '=');
        assert(bytes =~= seq![bytes[0], bytes[1], bytes[2]] + tail);
    }
}

/// A `data:` URI can be taken apart again: it opens with `data:`, the media
/// type follows unchanged, then `;base64,`, and what is left decodes to the
/// bytes that went in.
pub proof fn lemma_data_uri_round_trip(media_type: Seq<char>, bytes: Seq<u8>)
    ensures
        ({
            let uri = data_uri(media_type, bytes);
            let m = media_type.len() as int;
            &&& uri.len() == 13 + m + base64_text(bytes).len()
            &&& uri.subrange(0, 5) == "data:"@
            &&& uri.subrange(5, 5 + m) == media_type
            &&& uri.subrange(5 + m, 13 + m) == ";base64,"@
            &&& base64_bytes(uri.skip(13 + m)) == Some(bytes)
        }),
{
    reveal_strlit("data:");
    reveal_strlit(";base64,");
    let uri = data_uri(media_type, bytes);
    let m = media_type.len() as int;
    lemma_base64_round_trip(bytes);
    assert(uri.subrange(0, 5) =~= "data:"@);
    assert(uri.subrange(5, 5 + m) =~= media_type);
    assert(uri.subrange(5 + m, 13 + m) =~= ";base64,"@);
    assert(uri.skip(13 + m) =~= base64_text(bytes));
}

/// `base64::Engine::encode` on the engine
/// `base64::engine::general_purpose::STANDARD`: the alphabet of RFC 4648
/// section 4, with padding. The contract states the text that the engine
/// writes for every input. The engine fails only where four thirds of the
/// input's length does not fit in `usize`, which no `Vec<u8>` reaches.
#[verifier::external_body]
fn encode_standard(bytes: &Vec<u8>) -> (text: String)
    ensures
        text@ == base64_text(bytes@),
{
    base64::Engine::encode(&base64::engine::general_purpose::STANDARD, bytes)
}

/// Writes the `data:` URI for a media type and a base64 payload.
pub fn format_data_uri(media_type: &str, payload: &str) -> (uri: String)
    ensures
        uri@ == "data:"@ + media_type@ + ";base64,"@ + payload@,
{
    let mut uri = String::from_str("data:");
    uri.append(media_type);
    uri.append(";base64,");
    uri.append(payload);
    uri
}

/// Encodes a loaded resource, given as its bytes and its media type, as a
/// `data:` URI. An absent resource gives no replacement.
pub fn bytes_to_base64(b: Option<(Vec<u8>, String)>) -> (replacement: Option<String>)
    ensures
        replacement.deep_view() == encoded_replacement(b.deep_view()),
        b is None <==> replacement is None,
{
    match b {
        Some((bytes, media_type)) => {
            assert(bytes.deep_view() =~= bytes@);
            let payload = encode_standard(&bytes);
            Some(format_data_uri(media_type.as_str(), payload.as_str()))
        },
        None => None,
    }
}

} // verus!
