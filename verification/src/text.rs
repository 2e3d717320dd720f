//! Pieces of text: numbers in decimal and bytes in hexadecimal, and looking for a character.
use vstd::arithmetic::div_mod::lemma_div_denominator;
use vstd::arithmetic::power::{lemma_pow0, lemma_pow1, lemma_pow_adds, lemma_pow_positive, pow};
use vstd::prelude::*;

verus! {

/// The character of one decimal or hexadecimal digit, in lower case.
pub open spec fn digit_char(digit: int) -> char {
    if digit < 10 {
        ('0' as u32 + digit) as char
    } else {
        ('a' as u32 + digit - 10) as char
    }
}

/// A number written in decimal, without leading zeros.
pub open spec fn decimal(n: nat) -> Seq<char>
    decreases n,
{
    if n < 10 {
        seq![digit_char(n as int)]
    } else {
        decimal(n / 10).push(digit_char((n % 10) as int))
    }
}

/// Bytes written in hexadecimal: two lower-case digits for each.
pub open spec fn hex(bytes: Seq<u8>) -> Seq<char>
    decreases bytes.len(),
{
    if bytes.len() == 0 {
        Seq::empty()
    } else {
        hex(bytes.drop_last()).push(digit_char(bytes.last() as int / 16)).push(
            digit_char(bytes.last() as int % 16),
        )
    }
}

/// The text of one digit below sixteen.
fn digit_text(digit: u8) -> (text: &'static str)
    requires
        digit < 16,
    ensures
        text@ == seq![digit_char(digit as int)],
{
    proof {
        reveal_strlit("0");
        reveal_strlit("1");
        reveal_strlit("2");
        reveal_strlit("3");
        reveal_strlit("4");
        reveal_strlit("5");
        reveal_strlit("6");
        reveal_strlit("7");
        reveal_strlit("8");
        reveal_strlit("9");
        reveal_strlit("a");
        reveal_strlit("b");
        reveal_strlit("c");
        reveal_strlit("d");
        reveal_strlit("e");
        reveal_strlit("f");
    }
    match digit {
        0 => "0",
        1 => "1",
        2 => "2",
        3 => "3",
        4 => "4",
        5 => "5",
        6 => "6",
        7 => "7",
        8 => "8",
        9 => "9",
        10 => "a",
        11 => "b",
        12 => "c",
        13 => "d",
        14 => "e",
        _ => "f",
    }
}

/// Writes a number in decimal.
pub fn decimal_text(n: u64) -> (text: String)
    ensures
        text@ == decimal(n as nat),
    decreases n,
{
    if n < 10 {
        digit_text(n as u8).to_owned()
    } else {
        let mut text: String = decimal_text(n / 10);
        text.append(digit_text((n % 10) as u8));
        text
    }
}

/// Writes bytes in hexadecimal.
pub fn hex_text(bytes: &[u8]) -> (text: String)
    ensures
        text@ == hex(bytes@),
{
    let mut text: String = String::new();
    let mut i: usize = 0;
    while i < bytes.len()
        invariant
            i <= bytes.len(),
            text@ == hex(bytes@.take(i as int)),
        decreases bytes.len() - i,
    {
        text.append(digit_text(bytes[i] / 16));
        text.append(digit_text(bytes[i] % 16));
        assert(bytes@.take(i + 1).drop_last() =~= bytes@.take(i as int));
        i = i + 1;
    }
    assert(bytes@.take(i as int) =~= bytes@);
    text
}

/// Joins two texts.
pub fn join(first: &str, second: &str) -> (text: String)
    ensures
        text@ == first@ + second@,
{
    let mut text: String = first.to_owned();
    text.append(second);
    text
}

/// The place of the last occurrence of a character, counted in characters.
pub open spec fn last_index(text: Seq<char>, wanted: char) -> Option<int>
    decreases text.len(),
{
    if text.len() == 0 {
        None
    } else if text.last() == wanted {
        Some(text.len() - 1)
    } else {
        last_index(text.drop_last(), wanted)
    }
}

/// Finds the last occurrence of a character.
pub fn find_last(text: &str, wanted: char) -> (found: Option<usize>)
    ensures
        match found {
            Some(at) => last_index(text@, wanted) == Some(at as int),
            None => last_index(text@, wanted) is None,
        },
{
    let len: usize = text.unicode_len();
    let mut i: usize = len;
    assert(text@.take(len as int) =~= text@);
    while i > 0
        invariant
            i <= len,
            len == text@.len(),
            last_index(text@, wanted) == last_index(text@.take(i as int), wanted),
        decreases i,
    {
        assert(text@.take(i as int).drop_last() =~= text@.take(i - 1));
        i = i - 1;
        if text.get_char(i) == wanted {
            return Some(i);
        }
    }
    None
}

/// The last occurrence of a character is one, and none comes after it.
pub proof fn last_index_is_last(text: Seq<char>, wanted: char)
    ensures
        match last_index(text, wanted) {
            Some(at) => {
                &&& 0 <= at < text.len()
                &&& text[at] == wanted
                &&& forall|j: int| at < j < text.len() ==> text[j] != wanted
            },
            None => !text.contains(wanted),
        },
    decreases text.len(),
{
    if text.len() > 0 && text.last() != wanted {
        last_index_is_last(text.drop_last(), wanted);
        assert(text.drop_last().push(text.last()) =~= text);
        if last_index(text, wanted) is None && text.contains(wanted) {
            let j = choose|j: int| 0 <= j < text.len() && text[j] == wanted;
            assert(text.drop_last()[j] == wanted);
        }
    }
}

/// The digits of a number in decimal stand for its multiples of the powers of ten: the one that
/// is `place` places from the end is the quotient by that power, without its tens. There are just
/// as many digits as the number needs.
pub proof fn decimal_digits_have_their_places(n: nat, place: nat)
    requires
        place < decimal(n).len(),
    ensures
        decimal(n)[decimal(n).len() - 1 - place] as int == 48 + (n as int / pow(10, place)) % 10,
        n < pow(10, decimal(n).len()),
        n >= 10 ==> pow(10, (decimal(n).len() - 1) as nat) <= n,
        n < 10 ==> decimal(n).len() == 1,
    decreases n,
{
    lemma_pow0(10);
    lemma_pow1(10);
    if n >= 10 {
        let tens = n / 10;
        let len = decimal(tens).len();
        decimal_has_digits(tens);
        lemma_pow_adds(10, 1, len);
        lemma_pow_adds(10, 1, (len - 1) as nat);
        assert(n == tens * 10 + n % 10);
        if place == 0 {
            decimal_digits_have_their_places(tens, 0);
        } else {
            let before = (place - 1) as nat;
            decimal_digits_have_their_places(tens, before);
            lemma_pow_adds(10, 1, before);
            lemma_pow_positive(10, before);
            lemma_div_denominator(n as int, 10, pow(10, before));
            assert(decimal(n)[decimal(n).len() - 1 - place] == decimal(tens)[len - 1 - before]);
        }
        if tens < 10 {
            assert(pow(10, (len - 1) as nat) == 1);
        }
    }
}

proof fn decimal_has_digits(n: nat)
    ensures
        decimal(n).len() > 0,
    decreases n,
{
    if n >= 10 {
        decimal_has_digits(n / 10);
    }
}

/// Two numbers that are written alike are the same.
pub proof fn decimals_are_told_apart(first: nat, second: nat)
    requires
        decimal(first) == decimal(second),
    ensures
        first == second,
    decreases first,
{
    if first >= 10 {
        decimal_has_digits(first / 10);
    }
    if second >= 10 {
        decimal_has_digits(second / 10);
    }
    let last = decimal(first).last();
    assert(last as int == 48 + first % 10);
    assert(last as int == 48 + second % 10);
    if first >= 10 && second >= 10 {
        assert(decimal(first).drop_last() =~= decimal(first / 10));
        assert(decimal(second).drop_last() =~= decimal(second / 10));
        decimals_are_told_apart(first / 10, second / 10);
    }
}

/// Each byte in hexadecimal is two characters, the sixteens first, and each of them is the digit
/// `0` to `9` or the letter `a` to `f` that its value has.
pub proof fn hex_digits_have_their_places(bytes: Seq<u8>, i: int)
    requires
        0 <= i < bytes.len(),
    ensures
        hex(bytes).len() == 2 * bytes.len(),
        ({
            let high = bytes[i] as int / 16;
            let low = bytes[i] as int % 16;
            &&& hex(bytes)[2 * i] as int == if high < 10 {
                48 + high
            } else {
                87 + high
            }
            &&& hex(bytes)[2 * i + 1] as int == if low < 10 {
                48 + low
            } else {
                87 + low
            }
        }),
    decreases bytes.len(),
{
    hex_has_two_digits_a_byte(bytes);
    hex_has_two_digits_a_byte(bytes.drop_last());
    if i < bytes.len() - 1 {
        hex_digits_have_their_places(bytes.drop_last(), i);
        assert(bytes.drop_last()[i] == bytes[i]);
    }
}

proof fn hex_has_two_digits_a_byte(bytes: Seq<u8>)
    ensures
        hex(bytes).len() == 2 * bytes.len(),
    decreases bytes.len(),
{
    if bytes.len() > 0 {
        hex_has_two_digits_a_byte(bytes.drop_last());
    }
}

} // verus!
