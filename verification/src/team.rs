//! The teams of a Bedwars game, their names and their colours.
use valence_text::{Color, IntoText, Text};
use vstd::prelude::*;

verus! {

/// A team.
#[derive(Clone, Copy, Debug, PartialEq, Eq, Structural)]
pub enum Team {
    // Sorted alphabetically
    Black,
    Blue,
    Brown,
    Cyan,
    Gray,
    Green,
    LightBlue,
    LightGray,
    Lime,
    Magenta,
    Orange,
    Pink,
    Purple,
    Red,
    White,
    Yellow,
}

/// `valence_text::Color`, the colour of a text.
#[verifier::external_type_specification]
#[verifier::external_body]
pub struct ExColor(Color);

/// `valence_text::Text`, a text with its style.
#[verifier::external_type_specification]
#[verifier::external_body]
pub struct ExText(Text);

/// The red, green and blue channel of a colour that has them.
pub uninterp spec fn channels(color: Color) -> Seq<u8>;

/// The characters of a plain text.
pub uninterp spec fn characters(text: Text) -> Seq<char>;

/// The red, green and blue channel of a text's colour, or nothing if it has no colour of its
/// own.
pub uninterp spec fn text_channels(text: Text) -> Seq<u8>;

/// Whether a text is its characters and its colour alone: it has no font, no other style, no
/// events, and no further texts behind it.
pub uninterp spec fn is_plain(text: Text) -> bool;

/// `Color::rgb`: the colour with these channels.
#[verifier::external_body]
fn rgb(r: u8, g: u8, b: u8) -> (color: Color)
    ensures
        channels(color) == seq![r, g, b],
{
    Color::rgb(r, g, b)
}

/// `IntoText::into_text` of a string: a plain text with these characters and no colour.
#[verifier::external_body]
fn plain_text(content: &'static str) -> (text: Text)
    ensures
        characters(text) == content@,
        text_channels(text) == Seq::<u8>::empty(),
        is_plain(text),
{
    content.into_text()
}

/// `IntoText::color` of a text: the same text in this colour.
#[verifier::external_body]
fn in_color(text: Text, color: Color) -> (colored: Text)
    ensures
        characters(colored) == characters(text),
        text_channels(colored) == channels(color),
        is_plain(colored) == is_plain(text),
{
    text.color(color)
}

impl Team {
    /// The name of the team.
    pub open spec fn spec_name(self) -> Seq<char> {
        match self {
            Team::Black => "Black"@,
            Team::Blue => "Blue"@,
            Team::Brown => "Brown"@,
            Team::Cyan => "Cyan"@,
            Team::Gray => "Gray"@,
            Team::Green => "Green"@,
            Team::LightBlue => "Light Blue"@,
            Team::LightGray => "Light Gray"@,
            Team::Lime => "Lime"@,
            Team::Magenta => "Magenta"@,
            Team::Orange => "Orange"@,
            Team::Pink => "Pink"@,
            Team::Purple => "Purple"@,
            Team::Red => "Red"@,
            Team::White => "White"@,
            Team::Yellow => "Yellow"@,
        }
    }

    /// The colour of the team: that of the wool, as red, green and blue.
    pub open spec fn wool(self) -> Seq<u8> {
        match self {
            Team::Black => seq![0x14u8, 0x15, 0x19],
            Team::Blue => seq![0x35u8, 0x39, 0x9D],
            Team::Brown => seq![0x72u8, 0x47, 0x28],
            Team::Cyan => seq![0x15u8, 0x89, 0x91],
            Team::Gray => seq![0x3Eu8, 0x44, 0x47],
            Team::Green => seq![0x54u8, 0x6D, 0x1B],
            Team::LightBlue => seq![0x3Au8, 0xAF, 0xD9],
            Team::LightGray => seq![0x8Eu8, 0x8E, 0x86],
            Team::Lime => seq![0x70u8, 0xB9, 0x19],
            Team::Magenta => seq![0xBDu8, 0x44, 0xB3],
            Team::Orange => seq![0xF0u8, 0x76, 0x13],
            Team::Pink => seq![0xEDu8, 0x8D, 0xAC],
            Team::Purple => seq![0x79u8, 0x2A, 0xAC],
            Team::Red => seq![0xA1u8, 0x27, 0x22],
            Team::White => seq![0xE9u8, 0xEC, 0xEC],
            Team::Yellow => seq![0xF8u8, 0xC6, 0x27],
        }
    }

    /// The name of the team.
    pub fn name(self) -> (name: &'static str)
        ensures
            name@ == self.spec_name(),
    {
        match self {
            Team::Black => "Black",
            Team::Blue => "Blue",
            Team::Brown => "Brown",
            Team::Cyan => "Cyan",
            Team::Gray => "Gray",
            Team::Green => "Green",
            Team::LightBlue => "Light Blue",
            Team::LightGray => "Light Gray",
            Team::Lime => "Lime",
            Team::Magenta => "Magenta",
            Team::Orange => "Orange",
            Team::Pink => "Pink",
            Team::Purple => "Purple",
            Team::Red => "Red",
            Team::White => "White",
            Team::Yellow => "Yellow",
        }
    }

    /// The colour of the team.
    pub fn color(self) -> (color: Color)
        ensures
            channels(color) == self.wool(),
    {
        // Source: https://minecraft.wiki/w/Wool/DV
        // (https://web.archive.org/web/20231011122724/https://minecraft.wiki/w/Wool/DV)
        match self {
            Team::Black => rgb(0x14, 0x15, 0x19),
            Team::Blue => rgb(0x35, 0x39, 0x9D),
            Team::Brown => rgb(0x72, 0x47, 0x28),
            Team::Cyan => rgb(0x15, 0x89, 0x91),
            Team::Gray => rgb(0x3E, 0x44, 0x47),
            Team::Green => rgb(0x54, 0x6D, 0x1B),
            Team::LightBlue => rgb(0x3A, 0xAF, 0xD9),
            Team::LightGray => rgb(0x8E, 0x8E, 0x86),
            Team::Lime => rgb(0x70, 0xB9, 0x19),
            Team::Magenta => rgb(0xBD, 0x44, 0xB3),
            Team::Orange => rgb(0xF0, 0x76, 0x13),
            Team::Pink => rgb(0xED, 0x8D, 0xAC),
            Team::Purple => rgb(0x79, 0x2A, 0xAC),
            Team::Red => rgb(0xA1, 0x27, 0x22),
            Team::White => rgb(0xE9, 0xEC, 0xEC),
            Team::Yellow => rgb(0xF8, 0xC6, 0x27),
        }
    }

    /// The name of the team, in its colour.
    pub fn text(self) -> (text: Text)
        ensures
            characters(text) == self.spec_name(),
            text_channels(text) == self.wool(),
            is_plain(text),
    {
        in_color(plain_text(self.name()), self.color())
    }
}

impl From<Team> for Color {
    /// The colour of the team.
    fn from(team: Team) -> (color: Self)
        ensures
            channels(color) == team.wool(),
    {
        team.color()
    }
}

impl vstd::std_specs::convert::FromSpecImpl<Team> for Color {
    open spec fn obeys_from_spec() -> bool {
        false
    }

    open spec fn from_spec(team: Team) -> Self {
        arbitrary()
    }
}

impl From<Team> for Text {
    /// The name of the team, in its colour.
    fn from(team: Team) -> (text: Self)
        ensures
            characters(text) == team.spec_name(),
            text_channels(text) == team.wool(),
            is_plain(text),
    {
        team.text()
    }
}

impl vstd::std_specs::convert::FromSpecImpl<Team> for Text {
    open spec fn obeys_from_spec() -> bool {
        false
    }

    open spec fn from_spec(team: Team) -> Self {
        arbitrary()
    }
}

/// The place of a team in the list of teams.
pub open spec fn place(team: Team) -> int {
    match team {
        Team::Black => 0,
        Team::Blue => 1,
        Team::Brown => 2,
        Team::Cyan => 3,
        Team::Gray => 4,
        Team::Green => 5,
        Team::LightBlue => 6,
        Team::LightGray => 7,
        Team::Lime => 8,
        Team::Magenta => 9,
        Team::Orange => 10,
        Team::Pink => 11,
        Team::Purple => 12,
        Team::Red => 13,
        Team::White => 14,
        Team::Yellow => 15,
    }
}

/// Whether a text comes before another in a dictionary: at the first place where they differ
/// it has the smaller character.
pub open spec fn comes_before(first: Seq<char>, second: Seq<char>) -> bool {
    exists|at: int|
        {
            &&& 0 <= at < first.len()
            &&& at < second.len()
            &&& #[trigger] first[at] < second[at]
            &&& forall|i: int| 0 <= i < at ==> first[i] == second[i]
        }
}

/// The list of teams is in the order of their names.
pub proof fn teams_are_sorted_by_name(first: Team, second: Team)
    requires
        place(first) < place(second),
    ensures
        comes_before(first.spec_name(), second.spec_name()),
{
    reveal_strlit("Black");
    reveal_strlit("Blue");
    reveal_strlit("Brown");
    reveal_strlit("Cyan");
    reveal_strlit("Gray");
    reveal_strlit("Green");
    reveal_strlit("Light Blue");
    reveal_strlit("Light Gray");
    reveal_strlit("Lime");
    reveal_strlit("Magenta");
    reveal_strlit("Orange");
    reveal_strlit("Pink");
    reveal_strlit("Purple");
    reveal_strlit("Red");
    reveal_strlit("White");
    reveal_strlit("Yellow");
    let a = first.spec_name();
    let b = second.spec_name();
    if a[0] < b[0] {
    } else if a[1] < b[1] {
        assert(a[0] == b[0]);
    } else if a[2] < b[2] {
        assert(a[0] == b[0] && a[1] == b[1]);
    } else {
        assert(a[6] < b[6]);
    }
}

/// No two teams have the same name, and no two have the same colour.
pub proof fn teams_can_be_told_apart(first: Team, second: Team)
    requires
        first != second,
    ensures
        first.spec_name() != second.spec_name(),
        first.wool() != second.wool(),
{
    if place(first) < place(second) {
        teams_are_sorted_by_name(first, second);
    } else {
        teams_are_sorted_by_name(second, first);
    }
    if first.wool() == second.wool() {
        assert(first.wool()[0] == second.wool()[0]);
    }
}

} // verus!
