//! Lower-case hexadecimal: the encoding the hub speaks for evidence bytes,
//! digests and public keys, and its decoding.
use vstd::prelude::*;
use vstd::string::StringSliceAdditionalSpecFns;

verus! {

/// The hexadecimal digit of a nibble (`0..16`), in lower case.
pub open spec fn nibble_char(n: int) -> char {
    if n < 10 {
        (48 + n) as char
    } else {
        (87 + n) as char
    }
}

/// The two digits that encode one byte, high nibble first.
pub open spec fn byte_digits(b: u8) -> Seq<char> {
    seq![nibble_char(b as int / 16), nibble_char(b as int % 16)]
}

/// The lower-case hexadecimal text of a byte sequence.
pub open spec fn spec_hex(bytes: Seq<u8>) -> Seq<char>
    decreases bytes.len(),
{
    if bytes.len() == 0 {
        Seq::empty()
    } else {
        spec_hex(bytes.drop_last()) + byte_digits(bytes.last())
    }
}

fn nibble(n: u8) -> (c: char)
    requires
        n < 16,
    ensures
        c == nibble_char(n as int),
{
    if n < 10 {
        (n + 48) as char
    } else {
        (n + 87) as char
    }
}

/// Renders bytes as lower-case hexadecimal, two digits per byte.
pub fn hex(bytes: &[u8]) -> (text: String)
    ensures
        text@ == spec_hex(bytes@),
{
    let mut text = String::new();
    let mut i: usize = 0;
    while i < bytes.len()
        invariant
            i <= bytes@.len(),
            text@ == spec_hex(bytes@.take(i as int)),
        decreases bytes@.len() - i,
    {
        let b = bytes[i];
        text.push(nibble(b / 16));
        text.push(nibble(b % 16));
        assert(bytes@.take(i + 1).drop_last() =~= bytes@.take(i as int));
        i = i + 1;
    }
    assert(bytes@.take(bytes@.len() as int) =~= bytes@);
    text
}

/// A byte that `char::to_digit(16)` reads as a hexadecimal digit:
/// `0-9`, `a-f` or `A-F`.
pub open spec fn is_hex_byte(b: u8) -> bool {
    (48 <= b <= 57) || (97 <= b <= 102) || (65 <= b <= 70)
}

/// The value of a hexadecimal digit byte.
pub open spec fn hex_value(b: u8) -> int {
    if b <= 57 {
        b - 48
    } else if b >= 97 {
        b - 87
    } else {
        b - 55
    }
}

/// Every byte is a hexadecimal digit.
pub open spec fn all_hex(bytes: Seq<u8>) -> bool {
    forall|i: int| 0 <= i < bytes.len() ==> #[trigger] is_hex_byte(bytes[i])
}

/// The bytes that consecutive digit pairs encode, high digit first.
pub open spec fn decode_pairs(digits: Seq<u8>) -> Seq<u8>
    decreases digits.len(),
{
    if digits.len() < 2 {
        Seq::empty()
    } else {
        decode_pairs(digits.subrange(0, digits.len() - 2)) + seq![
            (hex_value(digits[digits.len() - 2]) * 16 + hex_value(digits[digits.len() - 1])) as u8,
        ]
    }
}

/// Why a text is not hexadecimal.
pub enum HexError {
    /// The text has an odd number of bytes.
    OddLength,
    /// Some byte is not a hexadecimal digit.
    NotHex,
}

/// What decoding the bytes of a text gives: an odd length is refused
/// first, then any byte that is not a digit, else the decoded bytes.
pub open spec fn spec_decode_hex(digits: Seq<u8>) -> Result<Seq<u8>, HexError> {
    if digits.len() % 2 != 0 {
        Err(HexError::OddLength)
    } else if !all_hex(digits) {
        Err(HexError::NotHex)
    } else {
        Ok(decode_pairs(digits))
    }
}

/// The message with which a decoding error is reported.
pub open spec fn hex_error_message(e: HexError) -> Seq<char> {
    match e {
        HexError::OddLength => "not hex (odd length)"@,
        HexError::NotHex => "not hex"@,
    }
}

fn digit_value(b: u8) -> (v: Option<u8>)
    ensures
        is_hex_byte(b) <==> v is Some,
        v matches Some(x) ==> x == hex_value(b) && x < 16,
{
    if 48 <= b && b <= 57 {
        Some(b - 48)
    } else if 97 <= b && b <= 102 {
        Some(b - 87)
    } else if 65 <= b && b <= 70 {
        Some(b - 55)
    } else {
        None
    }
}

/// Decodes hexadecimal text (either case) into bytes. The text is read
/// byte by byte; an odd number of bytes, or any byte that is not a
/// hexadecimal digit, is refused with the message that says which.
pub fn decode_hex(text: &str) -> (res: Result<Vec<u8>, String>)
    ensures
        match spec_decode_hex(text.spec_bytes()) {
            Ok(bytes) => res matches Ok(v) && v@ == bytes,
            Err(e) => res matches Err(m) && m@ == hex_error_message(e),
        },
{
    let digits = text.as_bytes();
    let n = digits.len();
    if n % 2 != 0 {
        return Err("not hex (odd length)".to_owned());
    }
    let mut out: Vec<u8> = Vec::new();
    let mut i: usize = 0;
    while i < n
        invariant
            n == digits@.len(),
            digits@ == text.spec_bytes(),
            n % 2 == 0,
            i % 2 == 0,
            i <= n,
            all_hex(digits@.take(i as int)),
            out@ == decode_pairs(digits@.take(i as int)),
        decreases n - i,
    {
        let hi = digit_value(digits[i]);
        let lo = digit_value(digits[i + 1]);
        match (hi, lo) {
            (Some(h), Some(l)) => {
                let ghost before = digits@.take(i as int);
                let ghost after = digits@.take(i + 2);
                assert(after.subrange(0, after.len() - 2) =~= before);
                out.push(h * 16 + l);
                assert(all_hex(after)) by {
                    assert forall|k: int| 0 <= k < after.len() implies #[trigger] is_hex_byte(
                        after[k],
                    ) by {
                        if k < i {
                            assert(after[k] == before[k]);
                        }
                    }
                }
                i = i + 2;
            },
            _ => {
                assert(!all_hex(digits@)) by {
                    if !is_hex_byte(digits@[i as int]) {
                    } else {
                        assert(!is_hex_byte(digits@[i + 1]));
                    }
                }
                return Err("not hex".to_owned());
            },
        }
    }
    assert(digits@.take(n as int) =~= digits@);
    Ok(out)
}

proof fn lemma_hex_shape(bytes: Seq<u8>)
    ensures
        spec_hex(bytes).len() == 2 * bytes.len(),
        forall|k: int|
            0 <= k < 2 * bytes.len() ==> {
                let c = #[trigger] spec_hex(bytes)[k];
                '\0' <= c <= '\u{7f}' && is_hex_byte(c as u8) && hex_value(c as u8) == if k % 2
                    == 0 {
                    bytes[k / 2] as int / 16
                } else {
                    bytes[k / 2] as int % 16
                }
            },
    decreases bytes.len(),
{
    if bytes.len() > 0 {
        let prefix = bytes.drop_last();
        lemma_hex_shape(prefix);
        let h = spec_hex(bytes);
        assert forall|k: int| 0 <= k < 2 * bytes.len() implies {
            let c = #[trigger] h[k];
            '\0' <= c <= '\u{7f}' && is_hex_byte(c as u8) && hex_value(c as u8) == if k % 2 == 0 {
                bytes[k / 2] as int / 16
            } else {
                bytes[k / 2] as int % 16
            }
        } by {
            if k < 2 * prefix.len() {
                assert(h[k] == spec_hex(prefix)[k]);
                assert(bytes[k / 2] == prefix[k / 2]);
            } else {
                assert(k / 2 == bytes.len() - 1);
            }
        }
    }
}

proof fn lemma_decode_pairs_of_digits(bytes: Seq<u8>, digits: Seq<u8>)
    requires
        digits.len() == 2 * bytes.len(),
        forall|k: int|
            0 <= k < digits.len() ==> hex_value(#[trigger] digits[k]) == if k % 2 == 0 {
                bytes[k / 2] as int / 16
            } else {
                bytes[k / 2] as int % 16
            },
    ensures
        decode_pairs(digits) == bytes,
    decreases bytes.len(),
{
    if bytes.len() > 0 {
        let prefix = bytes.drop_last();
        let front = digits.subrange(0, digits.len() - 2);
        assert forall|k: int| 0 <= k < front.len() implies hex_value(#[trigger] front[k]) == if k
            % 2 == 0 {
            prefix[k / 2] as int / 16
        } else {
            prefix[k / 2] as int % 16
        } by {
            assert(front[k] == digits[k]);
            assert(prefix[k / 2] == bytes[k / 2]);
        }
        lemma_decode_pairs_of_digits(prefix, front);
        let last = bytes.last();
        assert(hex_value(digits[digits.len() - 2]) == last as int / 16);
        assert(hex_value(digits[digits.len() - 1]) == last as int % 16);
        assert((last as int / 16) * 16 + last as int % 16 == last as int);
        assert(decode_pairs(digits) =~= bytes);
    }
}

/// Decoding the hexadecimal text of any bytes gives those bytes back:
/// what `hex` renders, `decode_hex` reads back exactly.
pub proof fn lemma_decode_hex_inverts_hex(bytes: Seq<u8>)
    ensures
        spec_decode_hex(vstd::utf8::encode_utf8(spec_hex(bytes))) == Ok::<Seq<u8>, HexError>(bytes),
{
    let h = spec_hex(bytes);
    lemma_hex_shape(bytes);
    assert(vstd::utf8::is_ascii_chars(h));
    vstd::utf8::is_ascii_chars_encode_utf8(h);
    let digits = vstd::utf8::encode_utf8(h);
    assert forall|k: int| 0 <= k < digits.len() implies #[trigger] is_hex_byte(digits[k]) by {
        assert(digits[k] == h[k] as u8);
    }
    assert forall|k: int| 0 <= k < digits.len() implies hex_value(#[trigger] digits[k]) == if k
        % 2 == 0 {
        bytes[k / 2] as int / 16
    } else {
        bytes[k / 2] as int % 16
    } by {
        assert(digits[k] == h[k] as u8);
    }
    lemma_decode_pairs_of_digits(bytes, digits);
}

/// The byte of the digit of value `n` (`0..16`): `0-9`, then `A-F` in
/// upper case or `a-f` in lower case.
pub open spec fn digit_byte(n: int, upper: bool) -> u8 {
    if n < 10 {
        (48 + n) as u8
    } else if upper {
        (55 + n) as u8
    } else {
        (87 + n) as u8
    }
}

/// The value of a lower-case digit character.
pub open spec fn lower_digit_value(c: char) -> int {
    if c <= '9' {
        c as int - 48
    } else {
        c as int - 87
    }
}

/// The text `hex` renders has two characters per byte, each a digit
/// `0-9` or a lower-case letter `a-f`; the first of each pair is the
/// byte's high nibble and the second its low nibble.
pub proof fn lemma_hex_layout(bytes: Seq<u8>)
    ensures
        spec_hex(bytes).len() == 2 * bytes.len(),
        forall|k: int|
            0 <= k < spec_hex(bytes).len() ==> {
                let c = #[trigger] spec_hex(bytes)[k];
                &&& ('0' <= c <= '9' || 'a' <= c <= 'f')
                &&& lower_digit_value(c) == if k % 2 == 0 {
                    bytes[k / 2] as int / 16
                } else {
                    bytes[k / 2] as int % 16
                }
            },
    decreases bytes.len(),
{
    if bytes.len() > 0 {
        let prefix = bytes.drop_last();
        lemma_hex_layout(prefix);
        let h = spec_hex(bytes);
        assert forall|k: int| 0 <= k < h.len() implies {
            let c = #[trigger] h[k];
            &&& ('0' <= c <= '9' || 'a' <= c <= 'f')
            &&& lower_digit_value(c) == if k % 2 == 0 {
                bytes[k / 2] as int / 16
            } else {
                bytes[k / 2] as int % 16
            }
        } by {
            if k < 2 * prefix.len() {
                assert(h[k] == spec_hex(prefix)[k]);
                assert(bytes[k / 2] == prefix[k / 2]);
            } else {
                assert(k / 2 == bytes.len() - 1);
            }
        }
    }
}

/// Decoding reads the digit of every value in either case: the two
/// digits of values `hi` and `lo`, each in upper or lower case, decode
/// to the one byte `hi * 16 + lo`.
pub proof fn lemma_decode_hex_reads_either_case(hi: int, lo: int, hi_upper: bool, lo_upper: bool)
    requires
        0 <= hi < 16,
        0 <= lo < 16,
    ensures
        spec_decode_hex(seq![digit_byte(hi, hi_upper), digit_byte(lo, lo_upper)]) == Ok::<
            Seq<u8>,
            HexError,
        >(seq![(hi * 16 + lo) as u8]),
{
    let d = seq![digit_byte(hi, hi_upper), digit_byte(lo, lo_upper)];
    assert(is_hex_byte(d[0]) && is_hex_byte(d[1]));
    assert(all_hex(d));
    assert(hex_value(d[0]) == hi);
    assert(hex_value(d[1]) == lo);
    let front = d.subrange(0, d.len() - 2);
    assert(front.len() == 0);
    assert(decode_pairs(front) == Seq::<u8>::empty());
    assert(d[d.len() - 2] == d[0] && d[d.len() - 1] == d[1]);
    assert(decode_pairs(d) == decode_pairs(front) + seq![
        (hex_value(d[0]) * 16 + hex_value(d[1])) as u8,
    ]);
    assert(decode_pairs(d) =~= seq![(hi * 16 + lo) as u8]);
}

/// The text with its lower-case letters `a-f` made upper case.
pub open spec fn upper_case_digits(text: Seq<u8>) -> Seq<u8> {
    text.map_values(|b: u8| if 97 <= b <= 102 { (b - 32) as u8 } else { b })
}

proof fn lemma_decode_pairs_by_value(a: Seq<u8>, b: Seq<u8>)
    requires
        a.len() == b.len(),
        forall|k: int| 0 <= k < a.len() ==> hex_value(#[trigger] a[k]) == hex_value(b[k]),
    ensures
        decode_pairs(a) == decode_pairs(b),
    decreases a.len(),
{
    if a.len() >= 2 {
        let a2 = a.subrange(0, a.len() - 2);
        let b2 = b.subrange(0, b.len() - 2);
        assert forall|k: int| 0 <= k < a2.len() implies hex_value(#[trigger] a2[k]) == hex_value(
            b2[k],
        ) by {
            assert(a2[k] == a[k] && b2[k] == b[k]);
        }
        lemma_decode_pairs_by_value(a2, b2);
        assert(hex_value(a[a.len() - 2]) == hex_value(b[b.len() - 2]));
        assert(hex_value(a[a.len() - 1]) == hex_value(b[b.len() - 1]));
    }
}

/// Decoding is blind to case: a text and the same text with its letters
/// made upper case decode alike, to the same bytes or the same refusal.
pub proof fn lemma_decode_hex_is_case_blind(text: Seq<u8>)
    ensures
        spec_decode_hex(upper_case_digits(text)) == spec_decode_hex(text),
{
    let u = upper_case_digits(text);
    assert(u.len() == text.len());
    assert forall|k: int| 0 <= k < text.len() implies (is_hex_byte(#[trigger] u[k]) == is_hex_byte(
        text[k],
    )) && hex_value(u[k]) == hex_value(text[k]) by {
        assert(u[k] == if 97 <= text[k] <= 102 { (text[k] - 32) as u8 } else { text[k] });
    }
    if all_hex(text) {
        assert forall|k: int| 0 <= k < u.len() implies #[trigger] is_hex_byte(u[k]) by {
            assert(is_hex_byte(text[k]));
        }
        lemma_decode_pairs_by_value(u, text);
    } else {
        let k = choose|k: int| 0 <= k < text.len() && !#[trigger] is_hex_byte(text[k]);
        assert(!is_hex_byte(u[k]));
    }
}

/// How decoding refuses: a text of odd length is refused for its length,
/// whatever it holds; a text of even length that holds a byte other than
/// `0-9`, `a-f`, `A-F` is refused as not hex; any other text decodes to
/// half as many bytes as it has digits.
pub proof fn lemma_decode_hex_refusals(text: Seq<u8>)
    ensures
        text.len() % 2 == 1 ==> spec_decode_hex(text) == Err::<Seq<u8>, HexError>(
            HexError::OddLength,
        ),
        text.len() % 2 == 0 && (exists|i: int|
            0 <= i < text.len() && !((48 <= #[trigger] text[i] <= 57) || (97 <= text[i] <= 102) || (65
                <= text[i] <= 70))) ==> spec_decode_hex(text) == Err::<Seq<u8>, HexError>(
            HexError::NotHex,
        ),
        text.len() % 2 == 0 && (forall|i: int|
            0 <= i < text.len() ==> ((48 <= #[trigger] text[i] <= 57) || (97 <= text[i] <= 102) || (65
                <= text[i] <= 70))) ==> (spec_decode_hex(text) matches Ok(bytes) && bytes.len() * 2
            == text.len()),
{
    if text.len() % 2 == 0 {
        lemma_decode_pairs_len(text);
        if exists|i: int|
            0 <= i < text.len() && !((48 <= #[trigger] text[i] <= 57) || (97 <= text[i] <= 102) || (
            65 <= text[i] <= 70)) {
            let i = choose|i: int|
                0 <= i < text.len() && !((48 <= #[trigger] text[i] <= 57) || (97 <= text[i] <= 102)
                    || (65 <= text[i] <= 70));
            assert(!is_hex_byte(text[i]));
            assert(!all_hex(text));
        }
    }
}

proof fn lemma_decode_pairs_len(digits: Seq<u8>)
    requires
        digits.len() % 2 == 0,
    ensures
        decode_pairs(digits).len() * 2 == digits.len(),
    decreases digits.len(),
{
    if digits.len() >= 2 {
        lemma_decode_pairs_len(digits.subrange(0, digits.len() - 2));
    }
}

} // verus!
