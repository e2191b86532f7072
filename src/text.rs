//! Short text tokens for cards and moves, as a command-line front end shows them.

use vstd::prelude::*;
use crate::card::{Card, CardType, Color};
use crate::moves::{Move, Variant};

verus! {

/// The letter of a colour: `R`, `B`, `G`, `Y`, or `*` for wild.
pub open spec fn color_text(c: Color) -> Seq<char> {
    match c {
        Color::Red => "R"@,
        Color::Blue => "B"@,
        Color::Green => "G"@,
        Color::Yellow => "Y"@,
        Color::Wild => "*"@,
    }
}

/// The decimal digit `d`.
pub open spec fn digit_text(d: nat) -> Seq<char> {
    if d == 0 {
        "0"@
    } else if d == 1 {
        "1"@
    } else if d == 2 {
        "2"@
    } else if d == 3 {
        "3"@
    } else if d == 4 {
        "4"@
    } else if d == 5 {
        "5"@
    } else if d == 6 {
        "6"@
    } else if d == 7 {
        "7"@
    } else if d == 8 {
        "8"@
    } else {
        "9"@
    }
}

/// `n` in decimal, without leading zeros.
pub open spec fn decimal(n: nat) -> Seq<char>
    decreases n,
{
    if n < 10 {
        digit_text(n)
    } else {
        decimal(n / 10) + digit_text(n % 10)
    }
}

/// The token of a card: `V` with number and colour for a value card, else a
/// two-character kind mark (`D2`, `D4`, `*-`, `S-`, `R-`) and the colour.
pub open spec fn card_text(c: Card) -> Seq<char> {
    match c.variant {
        CardType::Value => "V"@ + decimal(c.value as nat) + color_text(c.color),
        CardType::DrawTwo => "D2"@ + color_text(c.color),
        CardType::DrawFour => "D4"@ + color_text(c.color),
        CardType::Wild => "*-"@ + color_text(c.color),
        CardType::Cancel => "S-"@ + color_text(c.color),
        CardType::Reverse => "R-"@ + color_text(c.color),
    }
}

/// The token of a move: `H` with hand position and colour for a plain play,
/// `S` and colour for a skip, `D4->` and colour for a DrawFour, and `D`, `D2`
/// or `R` for a deck draw, a DrawTwo or a reverse.
pub open spec fn move_text(m: Move) -> Seq<char> {
    match m.variant {
        Variant::Play => "H"@ + decimal(m.hand_idx as nat) + color_text(m.as_color),
        Variant::Skip => "S"@ + color_text(m.as_color),
        Variant::DrawDeck => "D"@,
        Variant::Draw4 => "D4->"@ + color_text(m.as_color),
        Variant::Draw2 => "D2"@,
        Variant::Reverse => "R"@,
    }
}

fn color_str(c: Color) -> (r: &'static str)
    ensures
        r@ == color_text(c),
{
    match c {
        Color::Red => "R",
        Color::Blue => "B",
        Color::Green => "G",
        Color::Yellow => "Y",
        Color::Wild => "*",
    }
}

fn digit_str(d: usize) -> (r: &'static str)
    requires
        d < 10,
    ensures
        r@ == digit_text(d as nat),
{
    if d == 0 {
        "0"
    } else if d == 1 {
        "1"
    } else if d == 2 {
        "2"
    } else if d == 3 {
        "3"
    } else if d == 4 {
        "4"
    } else if d == 5 {
        "5"
    } else if d == 6 {
        "6"
    } else if d == 7 {
        "7"
    } else if d == 8 {
        "8"
    } else {
        "9"
    }
}

fn push_decimal(s: &mut String, n: usize)
    ensures
        final(s)@ == old(s)@ + decimal(n as nat),
    decreases n,
{
    if n >= 10 {
        push_decimal(s, n / 10);
    }
    s.append(digit_str(n % 10));
}

impl Color {
    /// The letter of this colour.
    pub fn to_text(&self) -> (r: String)
        ensures
            r@ == color_text(*self),
    {
        String::from_str(color_str(*self))
    }
}

impl Card {
    /// The token of this card.
    pub fn to_text(&self) -> (r: String)
        ensures
            r@ == card_text(*self),
    {
        let mut s = String::new();
        match self.variant {
            CardType::Value => {
                s.append("V");
                push_decimal(&mut s, self.value as usize);
            },
            CardType::DrawTwo => s.append("D2"),
            CardType::DrawFour => s.append("D4"),
            CardType::Wild => s.append("*-"),
            CardType::Cancel => s.append("S-"),
            CardType::Reverse => s.append("R-"),
        }
        s.append(color_str(self.color));
        s
    }
}

impl Move {
    /// The token of this move.
    pub fn to_text(&self) -> (r: String)
        ensures
            r@ == move_text(*self),
    {
        let mut s = String::new();
        match self.variant {
            Variant::Play => {
                s.append("H");
                push_decimal(&mut s, self.hand_idx);
                s.append(color_str(self.as_color));
            },
            Variant::Skip => {
                s.append("S");
                s.append(color_str(self.as_color));
            },
            Variant::DrawDeck => s.append("D"),
            Variant::Draw4 => {
                s.append("D4->");
                s.append(color_str(self.as_color));
            },
            Variant::Draw2 => s.append("D2"),
            Variant::Reverse => s.append("R"),
        }
        s
    }
}

} // verus!
