//! Properties of the rule engine that relate several functions or hold of all states.

use vstd::prelude::*;
use crate::card::{Card, Color};
use crate::game::{initial_state, Game, GameModel};
use crate::moves::{
    draw_move, expand, is_draw_card, legal_moves, moves_upto, playable_spec, Move, Variant,
};
use crate::transition::{accepts, draw_count};

verus! {

/// Every move that `expand` offers keeps the hand index, player and kind of the
/// underlying move, and names a concrete colour.
pub proof fn lemma_expand_members(x: Option<Move>)
    ensures
        forall|k: int|
            0 <= k < expand(x).len() ==> {
                let m = #[trigger] expand(x)[k];
                &&& x is Some
                &&& m.hand_idx == x->0.hand_idx
                &&& m.player_idx == x->0.player_idx
                &&& m.variant == x->0.variant
                &&& m.as_color != Color::Wild
            },
{
}

/// Every move offered for the first `n` cards of `hand` comes from one of those
/// cards, is made by `player`, plays a card, and names a concrete colour.
pub proof fn lemma_moves_upto_members(
    top: Card,
    hand: Seq<Card>,
    player: usize,
    chainable: bool,
    n: nat,
)
    requires
        n <= hand.len(),
        n <= usize::MAX,
    ensures
        forall|k: int|
            0 <= k < moves_upto(top, hand, player, chainable, n).len() ==> {
                let m = #[trigger] moves_upto(top, hand, player, chainable, n)[k];
                let pm = playable_spec(top, hand[m.hand_idx as int], m.hand_idx, player, chainable);
                &&& m.hand_idx < n
                &&& m.player_idx == player
                &&& m.variant != Variant::DrawDeck
                &&& m.as_color != Color::Wild
                &&& pm is Some
                &&& m.variant == pm->0.variant
            },
    decreases n,
{
    if n > 0 {
        let prev = moves_upto(top, hand, player, chainable, (n - 1) as nat);
        let i = (n - 1) as usize;
        let x = playable_spec(top, hand[n - 1], i, player, chainable);
        lemma_moves_upto_members(top, hand, player, chainable, (n - 1) as nat);
        lemma_expand_members(x);
        let all = moves_upto(top, hand, player, chainable, n);
        assert(all == prev + expand(x));
        assert forall|k: int| 0 <= k < all.len() implies {
            let m = #[trigger] all[k];
            let pm = playable_spec(top, hand[m.hand_idx as int], m.hand_idx, player, chainable);
            &&& m.hand_idx < n
            &&& m.player_idx == player
            &&& m.variant != Variant::DrawDeck
            &&& m.as_color != Color::Wild
            &&& pm is Some
            &&& m.variant == pm->0.variant
        } by {
            if k < prev.len() {
                assert(all[k] == prev[k]);
            } else {
                assert(all[k] == expand(x)[k - prev.len()]);
                if x is Some {
                    assert(x->0.hand_idx == i);
                    assert(x->0.variant != Variant::DrawDeck);
                }
            }
        }
    }
}

/// Every legal move, other than the forced draw, is made by the player to move and
/// plays a card of their hand under a concrete colour.
pub proof fn lemma_legal_move_members(game: Game)
    requires
        game.wf(),
        game@.hands[game.turn as int].len() <= usize::MAX,
    ensures
        forall|k: int|
            0 <= k < legal_moves(game@).len() ==> {
                let m = #[trigger] legal_moves(game@)[k];
                let hand = game@.hands[game@.turn as int];
                let pm = playable_spec(game@.top(), hand[m.hand_idx as int], m.hand_idx, game.turn, game@.chainable);
                ||| legal_moves(game@) == seq![draw_move(game.turn)] && hand.len() > 0
                ||| {
                    &&& m.hand_idx < hand.len()
                    &&& m.player_idx == game@.turn
                    &&& m.variant != Variant::DrawDeck
                    &&& m.as_color != Color::Wild
                    &&& pm is Some
                    &&& m.variant == pm->0.variant
                }
            },
{
    let g = game@;
    let hand = g.hands[g.turn as int];
    lemma_moves_upto_members(g.top(), hand, game.turn, g.chainable, hand.len());
}

/// Legality closure: every move that `generate` offers is one that `simulate`
/// carries out, provided the deck holds the cards a draw takes and the pending
/// penalty can grow by four within a `u32`.
pub proof fn lemma_legal_moves_accepted(game: Game, m: Move)
    requires
        game.wf(),
        game@.hands[game.turn as int].len() <= usize::MAX,
        legal_moves(game@).contains(m),
        game@.deck.len() >= draw_count(game@.accum),
        game@.accum + 4 <= u32::MAX,
    ensures
        accepts(game@, m),
{
    let g = game@;
    lemma_legal_move_members(game);
    let k = choose|k: int| 0 <= k < legal_moves(g).len() && legal_moves(g)[k] == m;
    assert(legal_moves(g)[k] == m);
}

/// Chain restriction: while a draw chain is open on a draw card, every legal move
/// plays a card of the same kind as the top card, unless the only legal move is
/// the forced draw.
pub proof fn lemma_chain_restriction(game: Game)
    requires
        game.wf(),
        game@.hands[game.turn as int].len() <= usize::MAX,
        game@.chainable,
        is_draw_card(game@.top().variant),
    ensures
        forall|k: int|
            0 <= k < legal_moves(game@).len() ==> {
                let m = #[trigger] legal_moves(game@)[k];
                let hand = game@.hands[game@.turn as int];
                ||| legal_moves(game@) == seq![draw_move(game.turn)]
                ||| m.hand_idx < hand.len() && hand[m.hand_idx as int].variant == game@.top().variant
            },
{
    lemma_legal_move_members(game);
}

/// A sequence whose elements all satisfy `p` is its own filter.
pub proof fn lemma_filter_all(s: Seq<Move>, p: spec_fn(Move) -> bool)
    requires
        forall|k: int| 0 <= k < s.len() ==> p(#[trigger] s[k]),
    ensures
        s.filter(p) == s,
    decreases s.len(),
{
    reveal(Seq::filter);
    if s.len() > 0 {
        lemma_filter_all(s.drop_last(), p);
        assert(s.drop_last().push(s.last()) =~= s);
    }
}

/// A sequence none of whose elements satisfies `p` filters to nothing.
pub proof fn lemma_filter_none(s: Seq<Move>, p: spec_fn(Move) -> bool)
    requires
        forall|k: int| 0 <= k < s.len() ==> !p(#[trigger] s[k]),
    ensures
        s.filter(p) == Seq::<Move>::empty(),
    decreases s.len(),
{
    reveal(Seq::filter);
    if s.len() > 0 {
        lemma_filter_none(s.drop_last(), p);
    }
}

/// The moves offered for the first `n` cards that play card `i` are exactly the
/// moves offered for card `i`.
pub proof fn lemma_moves_upto_card(
    top: Card,
    hand: Seq<Card>,
    player: usize,
    chainable: bool,
    n: nat,
    i: usize,
)
    requires
        n <= hand.len(),
        n <= usize::MAX,
        i < n,
    ensures
        moves_upto(top, hand, player, chainable, n).filter(|m: Move| m.hand_idx == i) == expand(
            playable_spec(top, hand[i as int], i, player, chainable),
        ),
    decreases n,
{
    let p = |m: Move| m.hand_idx == i;
    let prev = moves_upto(top, hand, player, chainable, (n - 1) as nat);
    let j = (n - 1) as usize;
    let x = playable_spec(top, hand[n - 1], j, player, chainable);
    lemma_expand_members(x);
    Seq::filter_distributes_over_add(prev, expand(x), p);
    if i == j {
        lemma_moves_upto_members(top, hand, player, chainable, (n - 1) as nat);
        lemma_filter_none(prev, p);
        lemma_filter_all(expand(x), p);
        assert(Seq::<Move>::empty() + expand(x) =~= expand(x));
    } else {
        lemma_moves_upto_card(top, hand, player, chainable, (n - 1) as nat, i);
        lemma_filter_none(expand(x), p);
        assert(prev.filter(p) + Seq::<Move>::empty() =~= prev.filter(p));
    }
}

/// Wild expansion: a playable card of the wild family is offered exactly four
/// times, once in each concrete colour (red, yellow, blue, green), and no legal
/// move other than the forced draw names the wild colour.
pub proof fn lemma_wild_expansion(game: Game, i: usize)
    requires
        game.wf(),
        game@.hands[game.turn as int].len() <= usize::MAX,
        i < game@.hands[game@.turn as int].len(),
    ensures
        ({
            let hand = game@.hands[game@.turn as int];
            let pm = playable_spec(game@.top(), hand[i as int], i, game.turn, game@.chainable);
            pm is Some && pm->0.as_color == Color::Wild ==> {
                let mine = legal_moves(game@).filter(|m: Move| m.hand_idx == i);
                &&& mine.len() == 4
                &&& mine[0] == Move { as_color: Color::Red, ..pm->0 }
                &&& mine[1] == Move { as_color: Color::Yellow, ..pm->0 }
                &&& mine[2] == Move { as_color: Color::Blue, ..pm->0 }
                &&& mine[3] == Move { as_color: Color::Green, ..pm->0 }
            }
        }),
        forall|k: int|
            0 <= k < legal_moves(game@).len() && (#[trigger] legal_moves(game@)[k]).variant
                != Variant::DrawDeck ==> legal_moves(game@)[k].as_color != Color::Wild,
{
    let g = game@;
    let hand = g.hands[g.turn as int];
    let top = g.top();
    let n = hand.len();
    lemma_legal_move_members(game);
    lemma_moves_upto_card(top, hand, game.turn, g.chainable, n, i);
    let pm = playable_spec(top, hand[i as int], i, game.turn, g.chainable);
    if pm is Some && pm->0.as_color == Color::Wild {
        let ms = moves_upto(top, hand, game.turn, g.chainable, n);
        let mine = ms.filter(|m: Move| m.hand_idx == i);
        assert(mine.len() == 4);
        ms.lemma_filter_len(|m: Move| m.hand_idx == i);
        assert(legal_moves(g) == ms);
    }
}

/// Determinism: two games set up with the same parameters hold the same cards in
/// the same order in every container, and agree on every other field.
pub proof fn lemma_init_deterministic(
    a: GameModel,
    b: GameModel,
    players: nat,
    decks: nat,
    hand_size: nat,
    seed: u64,
)
    requires
        a == initial_state(players, decks, hand_size, seed),
        b == initial_state(players, decks, hand_size, seed),
    ensures
        a.deck == b.deck,
        a.field == b.field,
        a.hands == b.hands,
        a == b,
{
}

} // verus!
