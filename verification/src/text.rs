//! Numerals as text, for the numbers that error messages quote, and text out of byte arrays.
use vstd::prelude::*;
use vstd::slice::slice_subrange;
use vstd::utf8::decode_utf8;
use vstd::utf8::valid_utf8;

verus! {

/// The character of the digit `d` in a base of at most sixteen.
pub open spec fn digit_char(d: nat) -> char {
    if d < 10 {
        ('0' as u32 + d) as char
    } else {
        ('a' as u32 + (d - 10)) as char
    }
}

/// The numeral of `n` in base `base`: most significant digit first, no leading zeros.
pub open spec fn numeral(n: nat, base: nat) -> Seq<char>
    decreases n,
{
    if base < 2 || n < base {
        seq![digit_char(n)]
    } else {
        proof {
            assert(n / base < n) by (nonlinear_arith)
                requires
                    n >= base >= 2,
            ;
        }
        numeral(n / base, base).push(digit_char(n % base))
    }
}

/// The decimal numeral of `n`.
pub open spec fn decimal(n: nat) -> Seq<char> {
    numeral(n, 10)
}

/// The decimal numeral of `n`, with a leading minus sign if `n` is negative.
pub open spec fn signed_decimal(n: int) -> Seq<char> {
    if n < 0 {
        "-"@ + decimal((-n) as nat)
    } else {
        decimal(n as nat)
    }
}

fn digit_str(d: u64) -> (r: &'static str)
    requires
        d < 16,
    ensures
        r@ == seq![digit_char(d as nat)],
{
    proof {
        reveal_strlit("0");
        reveal_strlit("1");
        reveal_strlit("2");
        reveal_strlit("3");
        reveal_strlit("4");
        reveal_strlit("5");
        reveal_strlit("6");
        reveal_strlit("7");
        reveal_strlit("8");
        reveal_strlit("9");
        reveal_strlit("a");
        reveal_strlit("b");
        reveal_strlit("c");
        reveal_strlit("d");
        reveal_strlit("e");
        reveal_strlit("f");
    }
    match d {
        0 => "0",
        1 => "1",
        2 => "2",
        3 => "3",
        4 => "4",
        5 => "5",
        6 => "6",
        7 => "7",
        8 => "8",
        9 => "9",
        10 => "a",
        11 => "b",
        12 => "c",
        13 => "d",
        14 => "e",
        _ => "f",
    }
}

/// Appends the numeral of `n` in base `base` to `out`.
pub fn push_numeral(out: &mut String, n: u64, base: u64)
    requires
        2 <= base <= 16,
    ensures
        final(out)@ == old(out)@ + numeral(n as nat, base as nat),
    decreases n,
{
    if n < base {
        out.append(digit_str(n));
    } else {
        assert(n / base < n) by (nonlinear_arith)
            requires
                n >= base >= 2,
        ;
        push_numeral(out, n / base, base);
        out.append(digit_str(n % base));
    }
}

/// Appends the decimal numeral of `n` to `out`.
pub fn push_decimal(out: &mut String, n: u64)
    ensures
        final(out)@ == old(out)@ + decimal(n as nat),
{
    push_numeral(out, n, 10);
}

/// Appends the decimal numeral of `n`, signed if negative, to `out`.
pub fn push_signed_decimal(out: &mut String, n: i32)
    ensures
        final(out)@ == old(out)@ + signed_decimal(n as int),
{
    if n < 0 {
        out.append("-");
        push_decimal(out, (-(n as i64)) as u64);
    } else {
        push_decimal(out, n as u64);
    }
}

/// The bytes before the first NUL, or all of them if there is none.
pub open spec fn before_nul(bytes: Seq<u8>) -> Seq<u8> {
    match bytes.index_of_first(0u8) {
        Some(end) => bytes.take(end),
        None => bytes,
    }
}

/// The text in a character array of the C interface: what is before the first NUL, as UTF-8, and
/// nothing if that is not UTF-8.
pub open spec fn c_text(bytes: Seq<u8>) -> Seq<char> {
    if valid_utf8(before_nul(bytes)) {
        decode_utf8(before_nul(bytes))
    } else {
        Seq::empty()
    }
}

/// Calls `std::str::from_utf8`. The claim: it accepts exactly the valid UTF-8 byte strings and
/// yields the characters that they encode.
#[verifier::external_body]
fn utf8_text(bytes: &[u8]) -> (r: Option<String>)
    ensures
        match r {
            Some(text) => valid_utf8(bytes@) && text@ == decode_utf8(bytes@),
            None => !valid_utf8(bytes@),
        },
{
    match std::str::from_utf8(bytes) {
        Ok(text) => Some(text.to_owned()),
        Err(_) => None,
    }
}

/// Reads the text in a character array of the C interface.
///
/// The text ends at the first NUL, or at the end of the array if there is none. Bytes that are not
/// UTF-8 give the empty string.
pub fn c_array_to_string(bytes: &[u8]) -> (r: String)
    ensures
        r@ == c_text(bytes@),
{
    let len: usize = bytes.len();
    let mut end: usize = 0;
    while end < len && bytes[end] != 0
        invariant
            len == bytes@.len(),
            end <= len,
            forall|i: int| 0 <= i < end ==> bytes@[i] != 0,
        decreases len - end,
    {
        end = end + 1;
    }
    proof {
        bytes@.index_of_first_ensures(0u8);
        assert(before_nul(bytes@) =~= bytes@.take(end as int));
        reveal_strlit("");
        assert(""@ =~= Seq::<char>::empty());
    }
    match utf8_text(slice_subrange(bytes, 0, end)) {
        Some(text) => text,
        None => "".to_owned(),
    }
}

/// The number that a digit stands for, `0` to `9` and then `a` to `f`.
pub open spec fn digit_value(c: char) -> int {
    if '0' <= c && c <= '9' {
        c as int - '0' as int
    } else {
        c as int - 'a' as int + 10
    }
}

/// The number that digits stand for in a base, the most significant first.
pub open spec fn number_of(digits: Seq<char>, base: nat) -> int
    decreases digits.len(),
{
    if digits.len() == 0 {
        0
    } else {
        number_of(digits.drop_last(), base) * base + digit_value(digits.last())
    }
}

proof fn lemma_digit(d: nat)
    requires
        d < 16,
    ensures
        digit_value(digit_char(d)) == d,
        d < 10 ==> '0' <= digit_char(d) && digit_char(d) <= '9',
        d >= 10 ==> 'a' <= digit_char(d) && digit_char(d) <= 'f',
        digit_char(d) == '0' <==> d == 0,
{
}

/// A numeral reads back as its number, has digits of its base only, and starts with a zero for zero
/// alone.
pub proof fn law_numeral_reads_back(n: nat, base: nat)
    requires
        2 <= base <= 16,
    ensures
        numeral(n, base).len() > 0,
        number_of(numeral(n, base), base) == n,
        numeral(n, base).first() == '0' <==> n == 0,
        forall|i: int|
            0 <= i < numeral(n, base).len() ==> {
                let c = #[trigger] numeral(n, base)[i];
                &&& ('0' <= c && c <= '9') || ('a' <= c && c <= 'f')
                &&& 0 <= digit_value(c) < base
            },
    decreases n,
{
    let text = numeral(n, base);
    if n < base {
        lemma_digit(n);
        assert(text.drop_last() =~= Seq::empty());
        assert(number_of(text.drop_last(), base) * base == 0) by {
            assert(number_of(text.drop_last(), base) == 0);
        }
    } else {
        assert(n / base < n && n / base > 0) by (nonlinear_arith)
            requires
                n >= base >= 2,
        ;
        vstd::arithmetic::div_mod::lemma_fundamental_div_mod(n as int, base as int);
        law_numeral_reads_back(n / base, base);
        lemma_digit(n % base);
        assert(text.drop_last() =~= numeral(n / base, base));
        assert((n / base) * base == base * (n / base)) by (nonlinear_arith);
        assert(text.first() == numeral(n / base, base).first());
        assert forall|i: int| 0 <= i < text.len() implies {
            let c = #[trigger] text[i];
            &&& ('0' <= c && c <= '9') || ('a' <= c && c <= 'f')
            &&& 0 <= digit_value(c) < base
        } by {
            if i < text.len() - 1 {
                assert(text[i] == numeral(n / base, base)[i]);
            }
        }
    }
}

/// A decimal numeral is a numeral of base ten; a minus sign stands before it exactly for a negative
/// number.
pub proof fn law_decimal_reads_back(n: int)
    ensures
        n >= 0 ==> signed_decimal(n) == decimal(n as nat) && number_of(decimal(n as nat), 10) == n,
        n < 0 ==> {
            &&& signed_decimal(n).len() > 1
            &&& signed_decimal(n).first() == '-'
            &&& signed_decimal(n).drop_first() == decimal((-n) as nat)
            &&& number_of(signed_decimal(n).drop_first(), 10) == -n
        },
{
    reveal_strlit("-");
    if n < 0 {
        law_numeral_reads_back((-n) as nat, 10);
        assert(signed_decimal(n).drop_first() =~= decimal((-n) as nat));
    } else {
        law_numeral_reads_back(n as nat, 10);
    }
}

/// The text of a character array is that of the longest start without a NUL, if it is UTF-8, and
/// empty if it is not. What comes after a NUL is of no consequence.
pub proof fn law_text_ends_at_the_first_nul(start: Seq<u8>, rest: Seq<u8>)
    requires
        forall|i: int| 0 <= i < start.len() ==> start[i] != 0,
    ensures
        valid_utf8(start) ==> c_text(start) == decode_utf8(start),
        !valid_utf8(start) ==> c_text(start).len() == 0,
        c_text(start.push(0u8) + rest) == c_text(start),
{
    let whole = start.push(0u8) + rest;
    start.index_of_first_ensures(0u8);
    whole.index_of_first_ensures(0u8);
    assert(before_nul(start) =~= start);
    assert(whole[start.len() as int] == 0);
    assert(whole.contains(0u8));
    let end = whole.index_of_first(0u8)->0;
    if end < start.len() {
        assert(whole[end] == start[end]);
    }
    assert(before_nul(whole) =~= start);
}

} // verus!
