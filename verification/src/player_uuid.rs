//! The unique ids of players, and their text forms.
use vstd::prelude::*;

use crate::text::{digit_char, hex};

verus! {

/// The unique id of a player.
#[derive(Clone, Copy, Debug, PartialEq, Eq)]
pub struct Uuid {
    pub bytes: [u8; 16],
}

/// The value of a hexadecimal digit, in either case.
pub open spec fn hex_value(c: char) -> Option<int> {
    if '0' <= c <= '9' {
        Some(c as int - '0' as int)
    } else if 'a' <= c <= 'f' {
        Some(c as int - 'a' as int + 10)
    } else if 'A' <= c <= 'F' {
        Some(c as int - 'A' as int + 10)
    } else {
        None
    }
}

/// The sixteen bytes that thirty-two hexadecimal digits stand for.
pub open spec fn bytes_of_digits(digits: Seq<char>) -> Option<Seq<u8>> {
    if digits.len() == 32 && (forall|i: int| 0 <= i < 32 ==> hex_value(#[trigger] digits[i]) is Some) {
        Some(
            Seq::new(
                16,
                |i: int|
                    (hex_value(digits[2 * i])->0 * 16 + hex_value(digits[2 * i + 1])->0) as u8,
            ),
        )
    } else {
        None
    }
}

/// The sixteen bytes that digits in five groups, joined by hyphens, stand for.
pub open spec fn bytes_of_groups(text: Seq<char>) -> Option<Seq<u8>> {
    if text.len() == 36 && text[8] == '-' && text[13] == '-' && text[18] == '-' && text[23]
        == '-' {
        bytes_of_digits(
            text.subrange(0, 8) + text.subrange(9, 13) + text.subrange(14, 18) + text.subrange(
                19,
                23,
            ) + text.subrange(24, 36),
        )
    } else {
        None
    }
}

/// Whether a character is `wanted`, or the upper case of it.
pub open spec fn matches_letter(c: char, wanted: char) -> bool {
    c == wanted || ('a' <= wanted <= 'z' && c as int == wanted as int - 32)
}

/// Whether a text begins with `urn:uuid:`, in either case.
pub open spec fn begins_as_urn(text: Seq<char>) -> bool {
    &&& text.len() >= 9
    &&& forall|i: int| 0 <= i < 9 ==> matches_letter(#[trigger] text[i], "urn:uuid:"@[i])
}

/// The id that a text stands for: thirty-two digits, or digits in groups, which may stand in
/// braces or behind `urn:uuid:`.
pub open spec fn uuid_of(text: Seq<char>) -> Option<Seq<u8>> {
    if text.len() == 32 {
        bytes_of_digits(text)
    } else if text.len() == 36 {
        bytes_of_groups(text)
    } else if text.len() == 38 && text[0] == '{' && text[37] == '}' {
        bytes_of_groups(text.subrange(1, 37))
    } else if text.len() == 45 && begins_as_urn(text) {
        bytes_of_groups(text.subrange(9, 45))
    } else {
        None
    }
}

/// An id as digits in five groups, joined by hyphens.
pub open spec fn hyphenated(bytes: Seq<u8>) -> Seq<char> {
    let digits = hex(bytes);
    digits.subrange(0, 8) + "-"@ + digits.subrange(8, 12) + "-"@ + digits.subrange(12, 16) + "-"@
        + digits.subrange(16, 20) + "-"@ + digits.subrange(20, 32)
}

/// What `uuid` says about a text that stands for no id.
pub uninterp spec fn uuid_complaint(text: Seq<char>) -> Seq<char>;

/// `uuid::Uuid::parse_str`: a text that stands for an id gives that id, and any other text
/// gives an error, of which the message is kept.
#[verifier::external_body]
fn parse_str(text: &str) -> (parsed: Result<[u8; 16], String>)
    ensures
        match parsed {
            Ok(bytes) => uuid_of(text@) == Some(bytes@),
            Err(complaint) => uuid_of(text@) is None && complaint@ == uuid_complaint(text@),
        },
{
    match uuid::Uuid::parse_str(text) {
        Ok(id) => Ok(id.into_bytes()),
        Err(error) => Err(error.to_string()),
    }
}

/// The `Display` of `uuid::Uuid`: digits in lower case, in five groups that are joined by
/// hyphens.
#[verifier::external_body]
fn display(bytes: [u8; 16]) -> (text: String)
    ensures
        text@ == hyphenated(bytes@),
{
    uuid::Uuid::from_bytes(bytes).to_string()
}

impl Uuid {
    /// Reads an id.
    pub fn parse(text: &str) -> (parsed: Result<Uuid, String>)
        ensures
            match parsed {
                Ok(id) => uuid_of(text@) == Some(id.bytes@),
                Err(complaint) => uuid_of(text@) is None && complaint@ == uuid_complaint(text@),
            },
    {
        match parse_str(text) {
            Ok(bytes) => Ok(Uuid { bytes }),
            Err(complaint) => Err(complaint),
        }
    }

    /// Writes the id as digits in five groups.
    pub fn to_text(&self) -> (text: String)
        ensures
            text@ == hyphenated(self.bytes@),
    {
        display(self.bytes)
    }
}

proof fn hex_is_its_digits(bytes: Seq<u8>)
    ensures
        hex(bytes).len() == 2 * bytes.len(),
        forall|i: int|
            #![trigger bytes[i]]
            0 <= i < bytes.len() ==> hex(bytes)[2 * i] == digit_char(bytes[i] as int / 16) && hex(
                bytes,
            )[2 * i + 1] == digit_char(bytes[i] as int % 16),
    decreases bytes.len(),
{
    if bytes.len() > 0 {
        hex_is_its_digits(bytes.drop_last());
        assert forall|i: int| #![trigger bytes[i]] 0 <= i < bytes.len() implies hex(bytes)[2 * i]
            == digit_char(bytes[i] as int / 16) && hex(bytes)[2 * i + 1] == digit_char(
            bytes[i] as int % 16,
        ) by {
            if i < bytes.len() - 1 {
                assert(bytes.drop_last()[i] == bytes[i]);
            }
        }
    }
}

proof fn digit_value(digit: int)
    requires
        0 <= digit < 16,
    ensures
        hex_value(digit_char(digit)) == Some(digit),
{
}

/// Thirty-two digits without hyphens stand for the id that they are the digits of.
pub proof fn compact_text_stands_for_its_id(bytes: Seq<u8>)
    requires
        bytes.len() == 16,
    ensures
        uuid_of(hex(bytes)) == Some(bytes),
{
    let digits = hex(bytes);
    hex_is_its_digits(bytes);
    assert forall|i: int| 0 <= i < 32 implies hex_value(#[trigger] digits[i]) is Some by {
        let k = i / 2;
        digit_value(bytes[k] as int / 16);
        digit_value(bytes[k] as int % 16);
        assert(i == 2 * k || i == 2 * k + 1);
    }
    assert(bytes_of_digits(digits)->0 =~= bytes) by {
        assert forall|i: int| 0 <= i < 16 implies bytes_of_digits(digits)->0[i] == bytes[i] by {
            digit_value(bytes[i] as int / 16);
            digit_value(bytes[i] as int % 16);
        }
    }
}

/// Reading what was written gives the id back.
pub proof fn written_id_reads_back(bytes: Seq<u8>)
    requires
        bytes.len() == 16,
    ensures
        uuid_of(hyphenated(bytes)) == Some(bytes),
{
    let digits = hex(bytes);
    let text = hyphenated(bytes);
    hex_is_its_digits(bytes);
    reveal_strlit("-");
    assert(text.len() == 36);
    assert(text.subrange(0, 8) + text.subrange(9, 13) + text.subrange(14, 18) + text.subrange(
        19,
        23,
    ) + text.subrange(24, 36) =~= digits);
    compact_text_stands_for_its_id(bytes);
}

} // verus!
