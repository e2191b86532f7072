use vstd::prelude::*;
use vstd::arithmetic::div_mod::lemma_fundamental_div_mod_converse_mod;
use crate::card::{copy_cards, Card};
use crate::game::{lemma_hand_total_update, next_seed, Game, GameModel};
use crate::moves::{Move, Variant};
use crate::shuffle::{seeded_shuffle, shuffle_cards};

verus! {

/// Cards that a move of kind `v` adds to the pending penalty.
pub open spec fn added_penalty(v: Variant) -> nat {
    if v == Variant::Draw2 {
        2
    } else if v == Variant::Draw4 {
        4
    } else {
        0
    }
}

/// Cards that a draw from the deck takes: the pending penalty, or one when none is pending.
pub open spec fn draw_count(accum: nat) -> nat {
    if accum == 0 {
        1
    } else {
        accum
    }
}

/// The moves that `simulate` can carry out on `g`: the mover exists, a drawn card
/// is there to take, a played card is in the hand, and the penalty stays within a `u32`.
pub open spec fn accepts(g: GameModel, m: Move) -> bool {
    &&& m.player_idx < g.players
    &&& if m.variant == Variant::DrawDeck {
        g.deck.len() >= draw_count(g.accum)
    } else {
        &&& m.hand_idx < g.hands[m.player_idx as int].len()
        &&& g.accum + added_penalty(m.variant) <= u32::MAX
    }
}

/// The direction of play after `m`: flipped by a Reverse.
pub open spec fn next_direction(g: GameModel, m: Move) -> bool {
    g.direction != (m.variant == Variant::Reverse)
}

/// The player to move after `m`: two seats on for a Skip, else one, in the new
/// direction, wrapping around the table.
pub open spec fn next_turn(g: GameModel, m: Move) -> nat {
    let step: int = if m.variant == Variant::Skip {
        2
    } else {
        1
    };
    let delta: int = if next_direction(g, m) {
        -step
    } else {
        step
    };
    ((g.turn + delta) % (g.players as int)) as nat
}

/// The top `k` cards of `deck`, in the order they are taken off.
pub open spec fn drawn(deck: Seq<Card>, k: nat) -> Seq<Card> {
    Seq::new(k, |t: int| deck[deck.len() - 1 - t])
}

/// The state after `m` has taken effect, before any reshuffle.
pub open spec fn after_effect(g: GameModel, m: Move) -> GameModel {
    let p = m.player_idx as int;
    if m.variant == Variant::DrawDeck {
        let k = draw_count(g.accum);
        GameModel {
            deck: g.deck.take(g.deck.len() - k),
            hands: g.hands.update(p, g.hands[p] + drawn(g.deck, k)),
            turn: next_turn(g, m),
            direction: next_direction(g, m),
            chainable: false,
            accum: 0,
            ..g
        }
    } else {
        let hand = g.hands[p];
        let card = Card { color: m.as_color, ..hand[m.hand_idx as int] };
        GameModel {
            field: g.field.push(card),
            hands: g.hands.update(p, hand.remove(m.hand_idx as int)),
            turn: next_turn(g, m),
            direction: next_direction(g, m),
            chainable: g.chainable || m.variant == Variant::Draw2 || m.variant == Variant::Draw4,
            accum: g.accum + added_penalty(m.variant),
            ..g
        }
    }
}

/// Whether `m` empties the deck, so that the field below its top is shuffled into a new deck.
pub open spec fn reshuffles(g: GameModel, m: Move) -> bool {
    after_effect(g, m).deck.len() == 0
}

/// The state after move `m` on `g`.
pub open spec fn apply_move(g: GameModel, m: Move) -> GameModel {
    let e = after_effect(g, m);
    if e.deck.len() == 0 {
        GameModel {
            deck: seeded_shuffle(e.field.drop_last(), g.seed),
            field: seq![e.field.last()],
            seed: next_seed(g.seed),
            ..e
        }
    } else {
        e
    }
}

/// The seat `step` places on from `turn`, backwards or forwards, around a table of `players`.
fn advance_turn(turn: usize, players: usize, step: usize, backwards: bool) -> (t: usize)
    requires
        players >= 2,
        turn < players,
        1 <= step <= 2,
    ensures
        t as int == (turn + if backwards {
            -step
        } else {
            step as int
        }) % (players as int),
        t < players,
{
    let ghost n = players as int;
    if !backwards {
        let room = players - turn;
        if step < room {
            proof {
                lemma_fundamental_div_mod_converse_mod(turn + step, n, 0, turn + step);
            }
            turn + step
        } else {
            proof {
                lemma_fundamental_div_mod_converse_mod(turn + step, n, 1, (step - room) as int);
            }
            step - room
        }
    } else {
        if turn >= step {
            proof {
                lemma_fundamental_div_mod_converse_mod(turn - step, n, 0, turn - step);
            }
            turn - step
        } else {
            proof {
                lemma_fundamental_div_mod_converse_mod(
                    turn - step,
                    n,
                    -1,
                    (players - (step - turn)) as int,
                );
            }
            players - (step - turn)
        }
    }
}

/// `hands` with the hand of player `p` replaced by `hand`.
fn replace_hand(hands: &Vec<Vec<Card>>, p: usize, hand: Vec<Card>) -> (r: Vec<Vec<Card>>)
    requires
        p < hands@.len(),
    ensures
        r@.map_values(|h: Vec<Card>| h@) == hands@.map_values(|h: Vec<Card>| h@).update(
            p as int,
            hand@,
        ),
{
    let mut r: Vec<Vec<Card>> = Vec::new();
    let mut q: usize = 0;
    while q < hands.len()
        invariant
            q <= hands@.len(),
            r@.len() == q,
            forall|i: int| 0 <= i < q ==> #[trigger] r@[i]@ == hands@[i]@,
        decreases hands@.len() - q,
    {
        r.push(copy_cards(&hands[q]));
        q = q + 1;
    }
    r.set(p, hand);
    assert(r@.map_values(|h: Vec<Card>| h@) =~= hands@.map_values(|h: Vec<Card>| h@).update(
        p as int,
        hand@,
    ));
    r
}

impl Game {
    /// The state after `picked`, a move of `self`; `self` is left as it is.
    pub fn simulate(&self, picked: &Move) -> (r: Game)
        requires
            self.wf(),
            accepts(self@, *picked),
        ensures
            r@ == apply_move(self@, *picked),
            r.wf(),
            r@.card_count() == self@.card_count(),
            reshuffles(self@, *picked) ==> r@.field == seq![after_effect(self@, *picked).top()],
    {
        let ghost g = self@;
        let direction = self.direction != (picked.variant == Variant::Reverse);
        let step: usize = if picked.variant == Variant::Skip {
            2
        } else {
            1
        };
        let turn = advance_turn(self.turn, self.players, step, direction);
        let mut deck = copy_cards(&self.deck);
        let mut field = copy_cards(&self.field);
        let mut seed = self.seed;
        let mut accum = self.accum;
        let mut chainable = self.chainable;
        let p = picked.player_idx;
        let mut hand = copy_cards(&self.hands[p]);
        assert(hand@ == g.hands[p as int]);
        if picked.variant == Variant::DrawDeck {
            let k: u32 = if accum == 0 {
                1
            } else {
                accum
            };
            let mut t: u32 = 0;
            while t < k
                invariant
                    k == draw_count(g.accum),
                    g.deck.len() >= k,
                    t <= k,
                    deck@ == g.deck.take(g.deck.len() - t),
                    hand@ == g.hands[p as int] + drawn(g.deck, t as nat),
                decreases k - t,
            {
                let c = deck.pop().unwrap();
                hand.push(c);
                t = t + 1;
                assert(deck@ =~= g.deck.take(g.deck.len() - t));
                assert(hand@ =~= g.hands[p as int] + drawn(g.deck, t as nat));
            }
            chainable = false;
            accum = 0;
        } else {
            let mut c = hand.remove(picked.hand_idx);
            c.color = picked.as_color;
            field.push(c);
            if picked.variant == Variant::Draw2 {
                accum = accum + 2;
                chainable = true;
            } else if picked.variant == Variant::Draw4 {
                accum = accum + 4;
                chainable = true;
            }
        }
        let ghost effect_field = field@;
        let ghost new_hand = hand@;
        let hands = replace_hand(&self.hands, p, hand);
        if deck.len() == 0 {
            let last = field.pop().unwrap();
            deck = field;
            shuffle_cards(&mut deck, seed);
            field = Vec::new();
            field.push(last);
            seed = if seed == u64::MAX {
                0
            } else {
                seed + 1
            };
        }
        let r = Game {
            deck,
            field,
            hands,
            players: self.players,
            turn,
            direction,
            seed,
            chainable,
            accum,
        };
        proof {
            let e = after_effect(g, *picked);
            assert(e.field == effect_field);
            assert(e.hands == g.hands.update(p as int, new_hand));
            assert(r@.field =~= apply_move(g, *picked).field);
            assert(r@ == apply_move(g, *picked));
            lemma_hand_total_update(g.hands, p as int, new_hand);
        }
        r
    }
}

} // verus!
