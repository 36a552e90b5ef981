//! Text that crosses the boundary: decoding a caller's bytes, and the wording
//! of the message that announces a number.

use vstd::prelude::*;
use vstd::utf8::*;

verus! {

/// Why a caller's bytes could not be read as text.
#[derive(Clone, Copy, Debug, PartialEq, Eq)]
pub enum DecodeError {
    /// The bytes are not well-formed UTF-8.
    InvalidUtf8,
}

/// The line that reports decoded text: the text between double quotes, after
/// a fixed label.
pub open spec fn decoded_line(text: Seq<char>) -> Seq<char> {
    "Rust decoded string: \""@ + text + "\""@
}

/// Reads `bytes` as UTF-8 through [`core::str::from_utf8`].
///
/// Taken on trust from the standard library: the call succeeds exactly on
/// well-formed UTF-8, and the string it then returns consists of the very
/// bytes it was given.
#[verifier::external_body]
fn str_from_utf8(bytes: &[u8]) -> (r: Option<&str>)
    ensures
        r is Some <==> valid_utf8(bytes@),
        r matches Some(s) ==> encode_utf8(s@) == bytes@,
{
    match core::str::from_utf8(bytes) {
        Ok(s) => Some(s),
        Err(_) => None,
    }
}

/// Decodes a caller's bytes and returns the line that reports them.
///
/// `buf` is the content of the caller's string, without its terminator.
/// Bytes that are not well-formed UTF-8 are refused: nothing of them is
/// reported.
pub fn printc(buf: &[u8]) -> (r: Result<String, DecodeError>)
    ensures
        valid_utf8(buf@) ==> r is Ok && r->Ok_0@ == decoded_line(decode_utf8(buf@)),
        !valid_utf8(buf@) ==> r == Err::<String, DecodeError>(DecodeError::InvalidUtf8),
{
    match str_from_utf8(buf) {
        Some(text) => {
            proof {
                encode_utf8_decode_utf8(text@);
            }
            let mut line = String::from_str("Rust decoded string: \"");
            line.append(text);
            line.append("\"");
            Ok(line)
        },
        None => Err(DecodeError::InvalidUtf8),
    }
}

/// The character for a single decimal digit.
pub open spec fn digit_char(d: nat) -> char
    recommends
        d < 10,
{
    ((0x30 + d) as u8) as char
}

/// `n` in decimal, most significant digit first, without leading zeros.
pub open spec fn decimal_digits(n: nat) -> Seq<char>
    decreases n,
{
    if n < 10 {
        seq![digit_char(n)]
    } else {
        decimal_digits(n / 10).push(digit_char(n % 10))
    }
}

/// The number that a sequence of decimal digits denotes.
pub open spec fn decimal_value(digits: Seq<char>) -> int
    decreases digits.len(),
{
    if digits.len() == 0 {
        0
    } else {
        decimal_value(digits.drop_last()) * 10 + (digits.last() as int - 0x30)
    }
}

/// The text that announces `number`.
pub open spec fn number_message(number: u32) -> Seq<char> {
    "The number is "@ + decimal_digits(number as nat) + " äöü 😎"@
}

/// Every character of a number in decimal is one of `0` to `9`.
pub proof fn decimal_digits_are_digits(n: nat)
    ensures
        decimal_digits(n).len() >= 1,
        forall|i: int|
            0 <= i < decimal_digits(n).len() ==> '0' <= #[trigger] decimal_digits(n)[i] <= '9',
    decreases n,
{
    if n >= 10 {
        decimal_digits_are_digits(n / 10);
    }
}

/// A number's decimal digits denote that number, and start with a zero only
/// for the number zero.
pub proof fn decimal_digits_denote(n: nat)
    ensures
        decimal_value(decimal_digits(n)) == n,
        n != 0 ==> decimal_digits(n)[0] != '0',
    decreases n,
{
    if n < 10 {
        assert(decimal_digits(n).drop_last() =~= Seq::<char>::empty());
        assert(decimal_value(Seq::<char>::empty()) == 0);
    } else {
        decimal_digits_denote(n / 10);
        decimal_digits_are_digits(n / 10);
        assert(decimal_digits(n).drop_last() =~= decimal_digits(n / 10));
    }
}

fn digit_str(d: u32) -> (s: &'static str)
    requires
        d < 10,
    ensures
        s@ == seq![digit_char(d as nat)],
{
    proof {
        reveal_strlit("0");
        reveal_strlit("1");
        reveal_strlit("2");
        reveal_strlit("3");
        reveal_strlit("4");
        reveal_strlit("5");
        reveal_strlit("6");
        reveal_strlit("7");
        reveal_strlit("8");
        reveal_strlit("9");
    }
    let s = match d {
        0 => "0",
        1 => "1",
        2 => "2",
        3 => "3",
        4 => "4",
        5 => "5",
        6 => "6",
        7 => "7",
        8 => "8",
        _ => "9",
    };
    assert(s@ =~= seq![digit_char(d as nat)]);
    s
}

/// Appends `n` in decimal to `text`.
pub(crate) fn push_decimal(text: &mut String, n: u32)
    ensures
        final(text)@ == old(text)@ + decimal_digits(n as nat),
    decreases n,
{
    if n >= 10 {
        push_decimal(text, n / 10);
    }
    text.append(digit_str(n % 10));
    assert(text@ =~= old(text)@ + decimal_digits(n as nat));
}

/// The UTF-8 encoding of a character other than NUL holds no zero byte.
proof fn encode_scalar_no_nul(c: char)
    requires
        c != '\0',
    ensures
        !encode_scalar(c as u32).contains(0u8),
{
    let v = c as u32;
    assert(v != 0 ==> (v & 0x7F) as u8 != 0 || v > 0x7F) by (bit_vector);
    assert(0xC0 | ((v >> 6) & 0x1F) as u8 != 0) by (bit_vector);
    assert(0xE0 | ((v >> 12) & 0x0F) as u8 != 0) by (bit_vector);
    assert(0xF0 | ((v >> 18) & 0x7) as u8 != 0) by (bit_vector);
    assert(0x80 | (v & 0x3F) as u8 != 0) by (bit_vector);
    assert(0x80 | ((v >> 6) & 0x3F) as u8 != 0) by (bit_vector);
    assert(0x80 | ((v >> 12) & 0x3F) as u8 != 0) by (bit_vector);
}

/// Encoded text holds a zero byte exactly when the text holds a NUL
/// character.
pub proof fn encode_utf8_nul(chars: Seq<char>)
    ensures
        encode_utf8(chars).contains(0u8) <==> chars.contains('\0'),
    decreases chars.len(),
{
    if chars.len() > 0 {
        let rest = chars.drop_first();
        let head = encode_scalar(chars[0] as u32);
        let tail = encode_utf8(rest);
        encode_utf8_nul(rest);
        if chars.contains('\0') {
            let i = choose|i: int| 0 <= i < chars.len() && chars[i] == '\0';
            if i == 0 {
                assert(0u32 & 0x7F == 0) by (bit_vector);
                assert((head + tail)[0] == 0);
            } else {
                assert(rest[i - 1] == '\0');
                let j = choose|j: int| 0 <= j < tail.len() && tail[j] == 0;
                assert((head + tail)[head.len() + j] == 0);
            }
        } else {
            assert forall|i: int| 0 <= i < rest.len() implies rest[i] != '\0' by {
                assert(rest[i] == chars[i + 1]);
            }
            encode_scalar_no_nul(chars[0]);
            assert forall|i: int| 0 <= i < (head + tail).len() implies (head + tail)[i] != 0 by {
                if i < head.len() {
                    assert(head.contains(head[i]));
                } else {
                    assert(tail.contains(tail[i - head.len()]));
                }
            }
        }
    }
}

/// The text that announces a number holds no NUL character.
pub proof fn number_message_no_nul(number: u32)
    ensures
        !number_message(number).contains('\0'),
{
    reveal_strlit("The number is ");
    reveal_strlit(" äöü 😎");
    decimal_digits_are_digits(number as nat);
}

} // verus!
