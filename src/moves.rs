use vstd::prelude::*;
use crate::card::{Card, CardType, Color};
use crate::game::{Game, GameModel};

verus! {

/// The kind of a move, listed from the lowest play priority to the highest.
#[derive(Clone, Copy, Debug, PartialEq, Eq, PartialOrd, Ord, Hash, Structural)]
pub enum Variant {
    DrawDeck,
    Play,
    Reverse,
    Skip,
    Draw2,
    Draw4,
}

/// A move of player `player_idx`: play the card at `hand_idx` of their hand as
/// colour `as_color`, or draw from the deck (`hand_idx` then means nothing).
#[derive(Clone, Copy, Debug, PartialEq, Eq, Structural)]
pub struct Move {
    pub hand_idx: usize,
    pub player_idx: usize,
    pub variant: Variant,
    pub as_color: Color,
}

/// The kind of move that playing a card of kind `t` makes.
pub open spec fn move_kind(t: CardType) -> Variant {
    match t {
        CardType::Value => Variant::Play,
        CardType::Reverse => Variant::Reverse,
        CardType::Cancel => Variant::Skip,
        CardType::DrawTwo => Variant::Draw2,
        CardType::DrawFour => Variant::Draw4,
        CardType::Wild => Variant::Play,
    }
}

/// Whether `t` is one of the two draw cards.
pub open spec fn is_draw_card(t: CardType) -> bool {
    t == CardType::DrawTwo || t == CardType::DrawFour
}

/// The move, if any, that playing `card` onto `top` makes.
///
/// While a draw chain is open (`chainable`) and `top` is a draw card, only a card
/// of the same kind may follow. A value card matches by colour, or by number
/// on a value card. Any other card matches by colour, or is wild.
pub open spec fn playable_spec(
    top: Card,
    card: Card,
    hand_idx: usize,
    player_idx: usize,
    chainable: bool,
) -> Option<Move> {
    if chainable && top.variant != card.variant && is_draw_card(top.variant) {
        None
    } else if card.variant == CardType::Value {
        if top.color == card.color || (top.variant == CardType::Value && top.value == card.value) {
            Some(Move { hand_idx, player_idx, variant: Variant::Play, as_color: card.color })
        } else {
            None
        }
    } else if card.color == Color::Wild || card.color == top.color {
        Some(Move { hand_idx, player_idx, variant: move_kind(card.variant), as_color: card.color })
    } else {
        None
    }
}

/// The moves offered for a playable card: a wild one once per concrete colour,
/// in the order red, yellow, blue, green; any other one as it is.
pub open spec fn expand(m: Option<Move>) -> Seq<Move> {
    match m {
        None => seq![],
        Some(m) => if m.as_color == Color::Wild {
            seq![
                Move { as_color: Color::Red, ..m },
                Move { as_color: Color::Yellow, ..m },
                Move { as_color: Color::Blue, ..m },
                Move { as_color: Color::Green, ..m },
            ]
        } else {
            seq![m]
        },
    }
}

/// The moves offered for the first `n` cards of `hand`, in hand order.
pub open spec fn moves_upto(
    top: Card,
    hand: Seq<Card>,
    player: usize,
    chainable: bool,
    n: nat,
) -> Seq<Move>
    decreases n,
{
    if n == 0 {
        seq![]
    } else {
        moves_upto(top, hand, player, chainable, (n - 1) as nat) + expand(
            playable_spec(top, hand[n - 1], (n - 1) as usize, player, chainable),
        )
    }
}

/// The forced draw offered when no card can be played.
pub open spec fn draw_move(player: usize) -> Move {
    Move { hand_idx: 0, player_idx: player, variant: Variant::DrawDeck, as_color: Color::Wild }
}

/// The legal moves of the player to move in `g`: the moves of their playable cards,
/// or a single draw when there are none and their hand is not empty.
pub open spec fn legal_moves(g: GameModel) -> Seq<Move> {
    let hand = g.hands[g.turn as int];
    let ms = moves_upto(g.top(), hand, g.turn as usize, g.chainable, hand.len());
    if ms.len() == 0 && hand.len() > 0 {
        seq![draw_move(g.turn as usize)]
    } else {
        ms
    }
}

fn move_kind_of(t: CardType) -> (v: Variant)
    ensures
        v == move_kind(t),
{
    match t {
        CardType::Value => Variant::Play,
        CardType::Reverse => Variant::Reverse,
        CardType::Cancel => Variant::Skip,
        CardType::DrawTwo => Variant::Draw2,
        CardType::DrawFour => Variant::Draw4,
        CardType::Wild => Variant::Play,
    }
}

impl Game {
    /// The move, if any, that playing `playing` (at `hand_idx` of player
    /// `player_idx`'s hand) onto `top_of_deck` makes.
    pub fn playable(
        top_of_deck: &Card,
        playing: &Card,
        hand_idx: usize,
        player_idx: usize,
        chainable: bool,
    ) -> (r: Option<Move>)
        ensures
            r == playable_spec(*top_of_deck, *playing, hand_idx, player_idx, chainable),
    {
        if chainable && top_of_deck.variant != playing.variant && (top_of_deck.variant
            == CardType::DrawTwo || top_of_deck.variant == CardType::DrawFour) {
            return None;
        }
        if playing.variant == CardType::Value {
            if top_of_deck.color == playing.color || (top_of_deck.variant == CardType::Value
                && top_of_deck.value == playing.value) {
                return Some(
                    Move { hand_idx, player_idx, variant: Variant::Play, as_color: playing.color },
                );
            }
            return None;
        }
        if playing.color == Color::Wild || playing.color == top_of_deck.color {
            return Some(
                Move {
                    hand_idx,
                    player_idx,
                    variant: move_kind_of(playing.variant),
                    as_color: playing.color,
                },
            );
        }
        None
    }

    /// The legal moves of the player to move.
    pub fn generate(&self) -> (r: Vec<Move>)
        requires
            self.wf(),
        ensures
            r@ == legal_moves(self@),
    {
        let hand = &self.hands[self.turn];
        let top = self.field[self.field.len() - 1];
        let ghost g = self@;
        assert(hand@ == g.hands[g.turn as int]);
        let mut moves: Vec<Move> = Vec::new();
        let mut i: usize = 0;
        while i < hand.len()
            invariant
                g == self@,
                top == g.top(),
                hand@ == g.hands[g.turn as int],
                i <= hand@.len(),
                moves@ == moves_upto(top, hand@, self.turn, self.chainable, i as nat),
            decreases hand@.len() - i,
        {
            let ghost before = moves@;
            let p = Game::playable(&top, &hand[i], i, self.turn, self.chainable);
            if let Some(m) = p {
                if m.as_color == Color::Wild {
                    moves.push(Move { as_color: Color::Red, ..m });
                    moves.push(Move { as_color: Color::Yellow, ..m });
                    moves.push(Move { as_color: Color::Blue, ..m });
                    moves.push(Move { as_color: Color::Green, ..m });
                } else {
                    moves.push(m);
                }
            }
            assert(moves@ =~= before + expand(p));
            i = i + 1;
        }
        if moves.len() == 0 && hand.len() != 0 {
            moves.push(
                Move {
                    hand_idx: 0,
                    player_idx: self.turn,
                    variant: Variant::DrawDeck,
                    as_color: Color::Wild,
                },
            );
            assert(moves@ =~= seq![draw_move(self.turn)]);
        }
        moves
    }
}

} // verus!
