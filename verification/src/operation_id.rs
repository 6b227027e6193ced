//! How an operation's identity is written: `op-` and a random (version 4) identifier in small
//! hexadecimal digits, grouped by hyphens.

use crate::contracts::OperationId;
use crate::text::{chars_of, is_lower_hex, same_text};
use vstd::prelude::*;

verus! {

/// The small hexadecimal digit of a number below sixteen.
pub open spec fn hex_digit(d: int) -> char {
    if d < 10 {
        (('0' as int + d) as u32) as char
    } else {
        (('a' as int + d - 10) as u32) as char
    }
}

/// The last `n` hexadecimal digits of a number.
pub open spec fn hex_digits(value: int, n: nat) -> Seq<char>
    decreases n,
{
    if n == 0 {
        Seq::empty()
    } else {
        hex_digits(value / 16, (n - 1) as nat).push(hex_digit(value % 16))
    }
}

/// An operation's identity as a text.
pub open spec fn operation_text(id: OperationId) -> Seq<char> {
    let h = hex_digits(id.value as int, 32);
    "op-"@ + h.subrange(0, 8) + "-"@ + h.subrange(8, 12) + "-"@ + h.subrange(12, 16) + "-"@
        + h.subrange(16, 20) + "-"@ + h.subrange(20, 32)
}

fn hex_digit_text(d: u8) -> (r: &'static str)
    requires
        d < 16,
    ensures
        r@ == seq![hex_digit(d as int)],
{
    proof {
        reveal_strlit("0");
        reveal_strlit("1");
        reveal_strlit("2");
        reveal_strlit("3");
        reveal_strlit("4");
        reveal_strlit("5");
        reveal_strlit("6");
        reveal_strlit("7");
        reveal_strlit("8");
        reveal_strlit("9");
        reveal_strlit("a");
        reveal_strlit("b");
        reveal_strlit("c");
        reveal_strlit("d");
        reveal_strlit("e");
        reveal_strlit("f");
    }
    match d {
        0 => "0",
        1 => "1",
        2 => "2",
        3 => "3",
        4 => "4",
        5 => "5",
        6 => "6",
        7 => "7",
        8 => "8",
        9 => "9",
        10 => "a",
        11 => "b",
        12 => "c",
        13 => "d",
        14 => "e",
        _ => "f",
    }
}

/// The last `n` hexadecimal digits of a number.
fn hex_text(value: u128, n: u8) -> (r: String)
    ensures
        r@ == hex_digits(value as int, n as nat),
    decreases n,
{
    if n == 0 {
        return String::new();
    }
    let mut r = hex_text(value / 16, n - 1);
    r.append(hex_digit_text((value % 16) as u8));
    assert(r@ =~= hex_digits(value as int, n as nat));
    r
}

proof fn hex_digits_len(value: int, n: nat)
    ensures
        hex_digits(value, n).len() == n,
    decreases n,
{
    if n > 0 {
        hex_digits_len(value / 16, (n - 1) as nat);
    }
}

/// Whether an identity is a random one: its version is four, and its variant the usual one.
pub open spec fn is_random(id: OperationId) -> bool {
    (id.value >> 76) & 0xf == 4 && (id.value >> 62) & 0x3 == 2
}

/// Where a digit stands in the text of an identity.
pub open spec fn digit_place(k: int) -> int {
    k + 3 + (if k >= 8 { 1int } else { 0 }) + (if k >= 12 { 1int } else { 0 }) + (if k >= 16 {
        1int
    } else {
        0
    }) + (if k >= 20 { 1int } else { 0 })
}

/// The number that a small hexadecimal digit stands for; sixteen for any other character.
pub open spec fn digit_value(c: char) -> int {
    if '0' <= c <= '9' {
        c as int - '0' as int
    } else if 'a' <= c <= 'f' {
        c as int - 'a' as int + 10
    } else {
        16
    }
}

/// The number that digits stand for.
pub open spec fn digits_value(s: Seq<char>) -> int
    decreases s.len(),
{
    if s.len() == 0 {
        0
    } else {
        digits_value(s.drop_last()) * 16 + digit_value(s.last())
    }
}

/// Sixteen to the power of `n`.
pub open spec fn pow16(n: nat) -> int
    decreases n,
{
    if n == 0 {
        1
    } else {
        pow16((n - 1) as nat) * 16
    }
}

proof fn digits_are_hexadecimal(value: int, n: nat, k: int)
    requires
        0 <= k < n,
    ensures
        0 <= digit_value(hex_digits(value, n)[k]) < 16,
    decreases n,
{
    hex_digits_len(value / 16, (n - 1) as nat);
    if k < n - 1 {
        digits_are_hexadecimal(value / 16, (n - 1) as nat, k);
    } else {
        assert(hex_digits(value, n)[k] == hex_digit(value % 16));
    }
}

proof fn digits_give_the_value_back(value: int, n: nat)
    requires
        0 <= value < pow16(n),
    ensures
        digits_value(hex_digits(value, n)) == value,
    decreases n,
{
    if n > 0 {
        let rest = hex_digits(value / 16, (n - 1) as nat);
        let all = hex_digits(value, n);
        assert(all.drop_last() =~= rest);
        assert(all.last() == hex_digit(value % 16));
        assert(digit_value(hex_digit(value % 16)) == value % 16);
        digits_give_the_value_back(value / 16, (n - 1) as nat);
    }
}

proof fn text_holds_the_digits(id: OperationId, k: int)
    requires
        0 <= k < 32,
    ensures
        operation_text(id).len() == 39,
        operation_text(id)[digit_place(k)] == hex_digits(id.value as int, 32)[k],
{
    reveal_strlit("op-");
    reveal_strlit("-");
    hex_digits_len(id.value as int, 32);
}

/// The text of an identity: `op-`, then small hexadecimal digits with four hyphens between them.
pub proof fn operation_text_shape(id: OperationId)
    ensures
        operation_text(id).len() == 39,
        operation_text(id)[0] == 'o',
        operation_text(id)[1] == 'p',
        operation_text(id)[2] == '-',
        forall|i: int|
            3 <= i < 39 ==> (if i == 11 || i == 16 || i == 21 || i == 26 {
                #[trigger] operation_text(id)[i] == '-'
            } else {
                is_lower_hex(operation_text(id)[i])
            }),
{
    reveal_strlit("op-");
    reveal_strlit("-");
    hex_digits_len(id.value as int, 32);
    let text = operation_text(id);
    assert forall|i: int| 3 <= i < 39 implies (if i == 11 || i == 16 || i == 21 || i == 26 {
        #[trigger] text[i] == '-'
    } else {
        is_lower_hex(text[i])
    }) by {
        if i != 11 && i != 16 && i != 21 && i != 26 {
            let k = i - 3 - (if i > 11 { 1int } else { 0 }) - (if i > 16 { 1int } else { 0 }) - (if i
                > 21 {
                1int
            } else {
                0
            }) - (if i > 26 { 1int } else { 0 });
            assert(digit_place(k) == i);
            text_holds_the_digits(id, k);
            digits_are_hexadecimal(id.value as int, 32, k);
        }
    }
}

proof fn pow16_of_32()
    ensures
        pow16(32) == 0x1_0000_0000_0000_0000_0000_0000_0000_0000,
{
    reveal_with_fuel(pow16, 33);
}

proof fn pow16_grows(a: nat, b: nat)
    requires
        a <= b,
    ensures
        0 < pow16(a) <= pow16(b),
    decreases b,
{
    if a < b {
        pow16_grows(a, (b - 1) as nat);
    } else if b > 0 {
        pow16_grows((a - 1) as nat, (b - 1) as nat);
    }
}

/// Two identities have the same text only if they are the same.
pub proof fn operation_texts_differ(left: OperationId, right: OperationId)
    requires
        operation_text(left) == operation_text(right),
    ensures
        left == right,
{
    let a = hex_digits(left.value as int, 32);
    let b = hex_digits(right.value as int, 32);
    hex_digits_len(left.value as int, 32);
    hex_digits_len(right.value as int, 32);
    assert forall|k: int| 0 <= k < 32 implies a[k] == b[k] by {
        text_holds_the_digits(left, k);
        text_holds_the_digits(right, k);
    }
    assert(a =~= b);
    pow16_of_32();
    digits_give_the_value_back(left.value as int, 32);
    digits_give_the_value_back(right.value as int, 32);
}

fn digit_of(c: char) -> (r: u8)
    ensures
        r == digit_value(c),
{
    if '0' <= c && c <= '9' {
        (c as u32 - '0' as u32) as u8
    } else if 'a' <= c && c <= 'f' {
        (c as u32 - 'a' as u32 + 10) as u8
    } else {
        16
    }
}

impl OperationId {
    /// The identity as a text.
    pub fn text(&self) -> (r: String)
        ensures
            r@ == operation_text(*self),
    {
        let hex = hex_text(self.value, 32);
        proof {
            hex_digits_len(self.value as int, 32);
        }
        let digits = hex.as_str();
        let mut r = "op-".to_owned();
        r.append(digits.substring_char(0, 8));
        r.append("-");
        r.append(digits.substring_char(8, 12));
        r.append("-");
        r.append(digits.substring_char(12, 16));
        r.append("-");
        r.append(digits.substring_char(16, 20));
        r.append("-");
        r.append(digits.substring_char(20, 32));
        r
    }

    /// Whether the identity is a random one.
    pub fn is_random(&self) -> (r: bool)
        ensures
            r == is_random(*self),
    {
        (self.value >> 76) & 0xf == 4 && (self.value >> 62) & 0x3 == 2
    }

    /// The random identity that random bits lead to: all of them count but six, which tell that the
    /// identity is random.
    pub fn from_random_bits(bits: u128) -> (r: OperationId)
        ensures
            is_random(r),
            r.value & 0xffff_ffff_ffff_0fff_3fff_ffff_ffff_ffff == bits
                & 0xffff_ffff_ffff_0fff_3fff_ffff_ffff_ffff,
    {
        let value: u128 = (bits & 0xffff_ffff_ffff_0fff_3fff_ffff_ffff_ffff)
            | 0x0000_0000_0000_4000_8000_0000_0000_0000;
        assert((value >> 76) & 0xf == 4 && (value >> 62) & 0x3 == 2 && value
            & 0xffff_ffff_ffff_0fff_3fff_ffff_ffff_ffff == bits
            & 0xffff_ffff_ffff_0fff_3fff_ffff_ffff_ffff) by (bit_vector)
            requires
                value == (bits & 0xffff_ffff_ffff_0fff_3fff_ffff_ffff_ffff)
                    | 0x0000_0000_0000_4000_8000_0000_0000_0000,
        ;
        OperationId { value }
    }

    /// The random identity that is written like this, if there is one.
    pub fn parse(text: &str) -> (r: Option<OperationId>)
        ensures
            match r {
                Some(id) => operation_text(id) == text@ && is_random(id),
                None => forall|id: OperationId|
                    is_random(id) ==> #[trigger] operation_text(id) != text@,
            },
    {
        let chars = chars_of(text);
        let ghost s = text@;
        if chars.len() != 39 {
            proof {
                assert forall|id: OperationId| #[trigger] operation_text(id) != s by {
                    text_holds_the_digits(id, 0);
                }
            }
            return None;
        }
        let mut value: u128 = 0;
        let mut k: usize = 0;
        let ghost digits = Seq::new(32, |i: int| s[digit_place(i)]);
        assert(digits.subrange(0, 0) =~= Seq::empty());
        while k < 32
            invariant
                k <= 32,
                chars@ == s,
                s == text@,
                chars.len() == 39,
                digits == Seq::new(32, |i: int| s[digit_place(i)]),
                value == digits_value(digits.subrange(0, k as int)),
                value < pow16(k as nat),
            decreases 32 - k,
        {
            let mut place: usize = k + 3;
            if k >= 8 {
                place = place + 1;
            }
            if k >= 12 {
                place = place + 1;
            }
            if k >= 16 {
                place = place + 1;
            }
            if k >= 20 {
                place = place + 1;
            }
            let digit: u8 = digit_of(chars[place]);
            if digit == 16 {
                proof {
                    assert forall|id: OperationId| #[trigger] operation_text(id) != s by {
                        text_holds_the_digits(id, k as int);
                        digits_are_hexadecimal(id.value as int, 32, k as int);
                    }
                }
                return None;
            }
            proof {
                let upto = digits.subrange(0, k + 1);
                assert(upto.drop_last() =~= digits.subrange(0, k as int));
                assert(upto.last() == s[place as int]);
                pow16_of_32();
                pow16_grows((k + 1) as nat, 32);
            }
            value = value * 16 + digit as u128;
            k = k + 1;
        }
        let id = OperationId { value };
        proof {
            assert(digits.subrange(0, 32) =~= digits);
            assert forall|other: OperationId| operation_text(other) == s implies other == id by {
                let hex = hex_digits(other.value as int, 32);
                hex_digits_len(other.value as int, 32);
                assert forall|i: int| 0 <= i < 32 implies hex[i] == digits[i] by {
                    text_holds_the_digits(other, i);
                }
                assert(hex =~= digits);
                pow16_of_32();
                digits_give_the_value_back(other.value as int, 32);
            }
        }
        if id.is_random() && same_text(id.text().as_str(), text) {
            Some(id)
        } else {
            None
        }
    }
}

} // verus!
