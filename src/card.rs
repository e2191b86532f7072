use vstd::prelude::*;

verus! {

/// The colour of a card. `Wild` marks a card whose colour is chosen when it is played.
#[derive(Clone, Copy, Debug, PartialEq, Eq, Structural)]
pub enum Color {
    Red,
    Blue,
    Green,
    Yellow,
    Wild,
}

/// What a card does when it is played.
#[derive(Clone, Copy, Debug, PartialEq, Eq, Structural)]
pub enum CardType {
    Value,
    Reverse,
    Cancel,
    DrawTwo,
    DrawFour,
    Wild,
}

/// A card. `value` is meaningful for `CardType::Value` cards only and is 0 otherwise.
#[derive(Clone, Copy, Debug, PartialEq, Eq, Structural)]
pub struct Card {
    pub value: u8,
    pub color: Color,
    pub variant: CardType,
}

/// Number of cards in one standard deck.
pub const STANDARD_DECK_LEN: usize = 108;

/// The four concrete colours, in the order in which a standard deck lists them.
pub open spec fn suit(k: int) -> Color {
    if k == 0 {
        Color::Red
    } else if k == 1 {
        Color::Blue
    } else if k == 2 {
        Color::Green
    } else {
        Color::Yellow
    }
}

/// The card at position `k` of a freshly built standard deck:
/// positions 0..72 hold two copies of the values 1 to 9 in each colour,
/// 72..76 one zero per colour, 76..100 two rounds of Reverse, Cancel and
/// DrawTwo per colour, and 100..108 four pairs of DrawFour and Wild.
pub open spec fn standard_card_spec(k: int) -> Card {
    if k < 72 {
        Card { value: (k / 8 + 1) as u8, color: suit(k % 4), variant: CardType::Value }
    } else if k < 76 {
        Card { value: 0, color: suit(k - 72), variant: CardType::Value }
    } else if k < 100 {
        let j = k - 76;
        Card {
            value: 0,
            color: suit((j % 12) / 3),
            variant: if j % 3 == 0 {
                CardType::Reverse
            } else if j % 3 == 1 {
                CardType::Cancel
            } else {
                CardType::DrawTwo
            },
        }
    } else {
        Card {
            value: 0,
            color: Color::Wild,
            variant: if (k - 100) % 2 == 0 {
                CardType::DrawFour
            } else {
                CardType::Wild
            },
        }
    }
}

/// The standard deck of 108 cards, in construction order.
pub open spec fn spec_standard_deck() -> Seq<Card> {
    Seq::new(108, |k: int| standard_card_spec(k))
}

/// `2` to the power `n`.
pub open spec fn two_pow(n: nat) -> nat
    decreases n,
{
    if n == 0 {
        1
    } else {
        2 * two_pow((n - 1) as nat)
    }
}

/// `s` concatenated with a copy of itself, `n` times over.
pub open spec fn doubled(s: Seq<Card>, n: nat) -> Seq<Card>
    decreases n,
{
    if n == 0 {
        s
    } else {
        let d = doubled(s, (n - 1) as nat);
        d + d
    }
}

/// The deck of a game played with `decks` decks, before shuffling: the standard
/// deck doubled `decks - 1` times.
pub open spec fn full_deck(decks: nat) -> Seq<Card> {
    doubled(spec_standard_deck(), (decks - 1) as nat)
}

/// Number of cards in a game played with `decks` decks.
pub open spec fn full_deck_len(decks: nat) -> nat {
    108 * two_pow((decks - 1) as nat)
}

/// Doubling `n` times multiplies the length by `2^n`.
pub proof fn lemma_doubled_len(s: Seq<Card>, n: nat)
    ensures
        doubled(s, n).len() == s.len() * two_pow(n),
    decreases n,
{
    if n > 0 {
        let m = (n - 1) as nat;
        lemma_doubled_len(s, m);
        let a = s.len() as int;
        let b = two_pow(m) as int;
        assert(2 * (a * b) == a * (2 * b)) by (nonlinear_arith);
        assert(two_pow(n) == 2 * b);
    } else {
        assert(two_pow(0) == 1);
        assert(s.len() * 1 == s.len());
    }
}

/// The game deck has `108 * 2^(decks - 1)` cards.
pub proof fn lemma_full_deck_len(decks: nat)
    requires
        decks >= 1,
    ensures
        full_deck(decks).len() == full_deck_len(decks),
{
    lemma_doubled_len(spec_standard_deck(), (decks - 1) as nat);
}

fn suit_of(k: usize) -> (c: Color)
    requires
        k < 4,
    ensures
        c == suit(k as int),
{
    if k == 0 {
        Color::Red
    } else if k == 1 {
        Color::Blue
    } else if k == 2 {
        Color::Green
    } else {
        Color::Yellow
    }
}

/// The card at position `k` of a freshly built standard deck.
pub fn standard_card(k: usize) -> (c: Card)
    requires
        k < STANDARD_DECK_LEN,
    ensures
        c == standard_card_spec(k as int),
{
    if k < 72 {
        Card { value: (k / 8 + 1) as u8, color: suit_of(k % 4), variant: CardType::Value }
    } else if k < 76 {
        Card { value: 0, color: suit_of(k - 72), variant: CardType::Value }
    } else if k < 100 {
        let j = k - 76;
        let variant = if j % 3 == 0 {
            CardType::Reverse
        } else if j % 3 == 1 {
            CardType::Cancel
        } else {
            CardType::DrawTwo
        };
        Card { value: 0, color: suit_of((j % 12) / 3), variant }
    } else {
        let variant = if (k - 100) % 2 == 0 {
            CardType::DrawFour
        } else {
            CardType::Wild
        };
        Card { value: 0, color: Color::Wild, variant }
    }
}

/// Builds the standard deck of 108 cards, in construction order.
pub fn standard_deck() -> (r: Vec<Card>)
    ensures
        r@ == spec_standard_deck(),
{
    let mut cards: Vec<Card> = Vec::new();
    let mut k: usize = 0;
    while k < STANDARD_DECK_LEN
        invariant
            k <= STANDARD_DECK_LEN,
            cards@ == spec_standard_deck().take(k as int),
        decreases STANDARD_DECK_LEN - k,
    {
        cards.push(standard_card(k));
        k = k + 1;
        assert(cards@ =~= spec_standard_deck().take(k as int));
    }
    assert(cards@ =~= spec_standard_deck());
    cards
}

/// A copy of `v`.
pub fn copy_cards(v: &Vec<Card>) -> (r: Vec<Card>)
    ensures
        r@ == v@,
{
    let mut r: Vec<Card> = Vec::new();
    let mut i: usize = 0;
    while i < v.len()
        invariant
            i <= v@.len(),
            r@ == v@.take(i as int),
        decreases v@.len() - i,
    {
        r.push(v[i]);
        i = i + 1;
        assert(r@ =~= v@.take(i as int));
    }
    assert(r@ =~= v@);
    r
}

} // verus!
