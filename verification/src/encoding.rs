//! Text encodings: base64 for keys and digests, percent encoding for queries.

use vstd::prelude::*;
use base64::Engine;

verus! {

/// `base64::DecodeError`, opaque.
#[verifier::external_type_specification]
#[verifier::external_body]
pub struct ExDecodeError(base64::DecodeError);

/// The character of the standard base64 alphabet that stands for the six bits `v`.
pub open spec fn base64_char(v: int) -> char {
    if v < 26 {
        (65 + v) as char
    } else if v < 52 {
        (97 + v - 26) as char
    } else if v < 62 {
        (48 + v - 52) as char
    } else if v == 62 {
        '+'
    } else {
        '/'
    }
}

/// The padded standard base64 text of `b`.
pub open spec fn base64_text(b: Seq<u8>) -> Seq<char>
    decreases b.len(),
{
    if b.len() == 0 {
        seq![]
    } else if b.len() == 1 {
        seq![base64_char(b[0] as int / 4), base64_char(b[0] as int % 4 * 16), '=', '=']
    } else if b.len() == 2 {
        seq![
            base64_char(b[0] as int / 4),
            base64_char(b[0] as int % 4 * 16 + b[1] as int / 16),
            base64_char(b[1] as int % 16 * 4),
            '=',
        ]
    } else {
        seq![
            base64_char(b[0] as int / 4),
            base64_char(b[0] as int % 4 * 16 + b[1] as int / 16),
            base64_char(b[1] as int % 16 * 4 + b[2] as int / 64),
            base64_char(b[2] as int % 64),
        ] + base64_text(b.skip(3))
    }
}

/// `base64::Engine::encode` of `BASE64_STANDARD` gives the padded standard
/// base64 text of its input. It panics where the text would not fit in memory;
/// the bound keeps well below that.
#[verifier::external_body]
pub(crate) fn base64_encode(bytes: &[u8]) -> (r: String)
    requires
        bytes@.len() < 0x4000_0000,
    ensures
        r@ == base64_text(bytes@),
{
    base64::prelude::BASE64_STANDARD.encode(bytes)
}

/// `base64::Engine::decode` of `BASE64_STANDARD` undoes `encode`, and refuses
/// every text that `encode` gives for no bytes: it requires canonical padding
/// and refuses non-zero trailing bits.
#[verifier::external_body]
pub(crate) fn base64_decode(text: &str) -> (r: Result<Vec<u8>, base64::DecodeError>)
    ensures
        r matches Ok(bytes) ==> base64_text(bytes@) == text@,
        r is Err ==> (forall|bytes: Seq<u8>| #[trigger] base64_text(bytes) != text@),
{
    base64::prelude::BASE64_STANDARD.decode(text)
}

proof fn lemma_base64_char_injective(v: int, w: int)
    requires
        0 <= v < 64,
        0 <= w < 64,
        base64_char(v) == base64_char(w),
    ensures
        v == w,
{
}

proof fn lemma_base64_char_not_pad(v: int)
    requires
        0 <= v < 64,
    ensures
        base64_char(v) != '=',
{
}

/// A base64 text is four characters for each started group of three bytes.
pub proof fn lemma_base64_len(b: Seq<u8>)
    ensures
        base64_text(b).len() == (b.len() + 2) / 3 * 4,
    decreases b.len(),
{
    if b.len() >= 3 {
        lemma_base64_len(b.skip(3));
    }
}

/// The first group of a base64 text, and what follows a whole group.
proof fn lemma_base64_group(b: Seq<u8>)
    requires
        b.len() > 0,
    ensures
        base64_text(b)[0] == base64_char(b[0] as int / 4),
        b.len() == 1 ==> base64_text(b)[1] == base64_char(b[0] as int % 4 * 16),
        b.len() == 1 ==> base64_text(b)[2] == '=',
        b.len() >= 2 ==> base64_text(b)[1] == base64_char(b[0] as int % 4 * 16 + b[1] as int / 16),
        b.len() == 2 ==> base64_text(b)[2] == base64_char(b[1] as int % 16 * 4),
        b.len() <= 2 ==> base64_text(b)[3] == '=',
        b.len() >= 3 ==> base64_text(b)[2] == base64_char(b[1] as int % 16 * 4 + b[2] as int / 64),
        b.len() >= 3 ==> base64_text(b)[3] == base64_char(b[2] as int % 64),
        b.len() >= 3 ==> base64_text(b).skip(4) == base64_text(b.skip(3)),
{
    if b.len() >= 3 {
        assert(base64_text(b).skip(4) =~= base64_text(b.skip(3)));
    }
}

/// Different bytes have different base64 texts, so a text decodes to at most
/// one sequence of bytes.
pub proof fn law_base64_injective(a: Seq<u8>, b: Seq<u8>)
    requires
        base64_text(a) == base64_text(b),
    ensures
        a == b,
    decreases a.len(),
{
    lemma_base64_len(a);
    lemma_base64_len(b);
    if a.len() == 0 {
        assert(b.len() == 0);
        assert(a =~= b);
    } else {
        assert(b.len() > 0);
        lemma_base64_group(a);
        lemma_base64_group(b);
        let a0 = a[0] as int;
        let b0 = b[0] as int;
        lemma_base64_char_injective(a0 / 4, b0 / 4);
        if a.len() == 1 {
            if b.len() == 2 {
                lemma_base64_char_not_pad(b[1] as int % 16 * 4);
            } else if b.len() >= 3 {
                lemma_base64_char_not_pad(b[1] as int % 16 * 4 + b[2] as int / 64);
            }
            assert(b.len() == 1);
            lemma_base64_char_injective(a0 % 4 * 16, b0 % 4 * 16);
            assert(a =~= b);
        } else if a.len() == 2 {
            if b.len() == 1 {
                lemma_base64_char_not_pad(a[1] as int % 16 * 4);
            } else if b.len() >= 3 {
                lemma_base64_char_not_pad(b[2] as int % 64);
            }
            assert(b.len() == 2);
            let a1 = a[1] as int;
            let b1 = b[1] as int;
            lemma_base64_char_injective(a0 % 4 * 16 + a1 / 16, b0 % 4 * 16 + b1 / 16);
            lemma_base64_char_injective(a1 % 16 * 4, b1 % 16 * 4);
            assert(a =~= b);
        } else {
            if b.len() == 1 {
                lemma_base64_char_not_pad(a[2] as int % 64);
            } else if b.len() == 2 {
                lemma_base64_char_not_pad(a[2] as int % 64);
            }
            assert(b.len() >= 3);
            let a1 = a[1] as int;
            let b1 = b[1] as int;
            let a2 = a[2] as int;
            let b2 = b[2] as int;
            lemma_base64_char_injective(a0 % 4 * 16 + a1 / 16, b0 % 4 * 16 + b1 / 16);
            lemma_base64_char_injective(a1 % 16 * 4 + a2 / 64, b1 % 16 * 4 + b2 / 64);
            lemma_base64_char_injective(a2 % 64, b2 % 64);
            law_base64_injective(a.skip(3), b.skip(3));
            assert(a =~= seq![a[0], a[1], a[2]] + a.skip(3));
            assert(b =~= seq![b[0], b[1], b[2]] + b.skip(3));
        }
    }
}

/// Whether percent encoding leaves `byte` as it is: an ASCII letter or digit,
/// or one of `-`, `.`, `_`, `~`.
pub open spec fn is_unreserved(byte: u8) -> bool {
    ||| 48 <= byte <= 57
    ||| 65 <= byte <= 90
    ||| 97 <= byte <= 122
    ||| byte == 45
    ||| byte == 46
    ||| byte == 95
    ||| byte == 126
}

/// The upper case hex digit of `v`.
pub open spec fn hex_digit(v: int) -> char {
    if v < 10 {
        (48 + v) as char
    } else {
        (65 + v - 10) as char
    }
}

/// The percent encoding of `bytes`.
pub open spec fn percent_text(bytes: Seq<u8>) -> Seq<char>
    decreases bytes.len(),
{
    if bytes.len() == 0 {
        seq![]
    } else if is_unreserved(bytes[0]) {
        seq![bytes[0] as char] + percent_text(bytes.skip(1))
    } else {
        seq!['%', hex_digit(bytes[0] as int / 16), hex_digit(bytes[0] as int % 16)] + percent_text(bytes.skip(1))
    }
}

/// `urlencoding::encode` percent-encodes each byte of the UTF-8 text but the
/// unreserved ones.
#[verifier::external_body]
pub(crate) fn percent_encode(text: &str) -> (r: String)
    ensures
        r@ == percent_text(vstd::utf8::encode_utf8(text@)),
{
    urlencoding::encode(text).into_owned()
}

/// Percent encoding leaves nothing that a query treats as a separator: each
/// character of it is unreserved or `%`.
pub proof fn law_percent_text_is_safe(bytes: Seq<u8>)
    ensures
        forall|i: int| 0 <= i < percent_text(bytes).len() ==> {
            let c = #[trigger] percent_text(bytes)[i];
            c == '%' || exists|b: u8| is_unreserved(b) && c == b as char
        },
    decreases bytes.len(),
{
    if bytes.len() > 0 {
        law_percent_text_is_safe(bytes.skip(1));
        let head = bytes[0];
        let rest = percent_text(bytes.skip(1));
        assert forall|i: int| 0 <= i < percent_text(bytes).len() implies {
            let c = #[trigger] percent_text(bytes)[i];
            c == '%' || exists|b: u8| is_unreserved(b) && c == b as char
        } by {
            let c = percent_text(bytes)[i];
            if is_unreserved(head) {
                if i == 0 {
                    assert(is_unreserved(head) && c == head as char);
                } else {
                    assert(c == rest[i - 1]);
                }
            } else if i >= 3 {
                assert(c == rest[i - 3]);
            } else if i > 0 {
                let v = if i == 1 { head as int / 16 } else { head as int % 16 };
                assert(c == hex_digit(v));
                let b: u8 = if v < 10 { (48 + v) as u8 } else { (65 + v - 10) as u8 };
                assert(is_unreserved(b) && c == b as char);
            }
        }
    }
}

/// Percent encoding goes byte by byte: the text of two parts is that of the
/// first followed by that of the second; a letter or a digit stands for itself.
pub proof fn law_percent_text_goes_byte_by_byte(a: Seq<u8>, b: Seq<u8>, byte: u8)
    ensures
        percent_text(a + b) == percent_text(a) + percent_text(b),
        97 <= byte <= 122 || 65 <= byte <= 90 || 48 <= byte <= 57 ==> percent_text(seq![byte]) == seq![byte as char],
        byte == 38 || byte == 61 || byte == 37 || byte == 32 ==> percent_text(seq![byte]).len() == 3,
    decreases a.len(),
{
    assert(seq![byte].skip(1) =~= Seq::<u8>::empty());
    assert(percent_text(seq![byte].skip(1)) =~= Seq::<char>::empty());
    assert(percent_text(seq![byte]) =~= if is_unreserved(byte) {
        seq![byte as char]
    } else {
        seq!['%', hex_digit(byte as int / 16), hex_digit(byte as int % 16)]
    });
    if a.len() == 0 {
        assert(a + b =~= b);
        assert(percent_text(a) + percent_text(b) =~= percent_text(b));
    } else {
        law_percent_text_goes_byte_by_byte(a.skip(1), b, byte);
        assert((a + b).skip(1) =~= a.skip(1) + b);
        assert(percent_text(a + b) =~= percent_text(a) + percent_text(b));
    }
}

} // verus!
