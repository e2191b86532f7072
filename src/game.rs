use vstd::prelude::*;
use crate::card::{
    copy_cards, doubled, full_deck, full_deck_len, lemma_doubled_len, lemma_full_deck_len,
    spec_standard_deck, standard_deck, two_pow, Card,
};
use crate::shuffle::{seeded_shuffle, shuffle_cards};

verus! {

/// The state of a game between two turns.
///
/// `deck` is a stack whose top is its last card, `field` is the discard pile whose
/// last card is the one new plays must match, and `hands[i]` is the hand of player `i`.
pub struct Game {
    pub deck: Vec<Card>,
    pub field: Vec<Card>,
    pub hands: Vec<Vec<Card>>,
    pub players: usize,
    pub turn: usize,
    pub direction: bool,
    pub seed: u64,
    pub chainable: bool,
    pub accum: u32,
}

/// The mathematical value of a `Game`.
pub ghost struct GameModel {
    pub deck: Seq<Card>,
    pub field: Seq<Card>,
    pub hands: Seq<Seq<Card>>,
    pub players: nat,
    pub turn: nat,
    pub direction: bool,
    pub seed: u64,
    pub chainable: bool,
    pub accum: nat,
}

/// Why a game cannot be set up.
#[derive(Clone, Copy, Debug, PartialEq, Eq, Structural)]
pub enum ConfigError {
    /// Fewer than two players.
    TooFewPlayers,
    /// Fewer than one deck.
    NoDecks,
    /// The hands would take the whole deck, leaving nothing to draw.
    HandsExceedDeck,
}

impl View for Game {
    type V = GameModel;

    open spec fn view(&self) -> GameModel {
        GameModel {
            deck: self.deck@,
            field: self.field@,
            hands: self.hands@.map_values(|h: Vec<Card>| h@),
            players: self.players as nat,
            turn: self.turn as nat,
            direction: self.direction,
            seed: self.seed,
            chainable: self.chainable,
            accum: self.accum as nat,
        }
    }
}

/// Total number of cards held in `hands`.
pub open spec fn hand_total(hands: Seq<Seq<Card>>) -> int
    decreases hands.len(),
{
    if hands.len() == 0 {
        0
    } else {
        hand_total(hands.drop_last()) + hands.last().len()
    }
}

impl GameModel {
    /// At least two players, one hand each, a player to move, and a card on the field.
    pub open spec fn wf(self) -> bool {
        &&& self.players >= 2
        &&& self.hands.len() == self.players
        &&& self.turn < self.players
        &&& self.field.len() >= 1
    }

    /// Cards in the deck, on the field and in all hands.
    pub open spec fn card_count(self) -> int {
        self.deck.len() + self.field.len() + hand_total(self.hands)
    }

    /// The card that new plays must match.
    pub open spec fn top(self) -> Card {
        self.field.last()
    }
}

impl Game {
    /// See `GameModel::wf`.
    pub open spec fn wf(&self) -> bool {
        self@.wf()
    }
}

/// The seed after one use: one more, wrapping at the largest value.
pub open spec fn next_seed(seed: u64) -> u64 {
    if seed == u64::MAX {
        0
    } else {
        (seed + 1) as u64
    }
}

/// Which error, if any, setting up a game with these parameters gives.
pub open spec fn config_error(players: nat, decks: nat, hand_size: nat) -> Option<ConfigError> {
    if players < 2 {
        Some(ConfigError::TooFewPlayers)
    } else if decks < 1 {
        Some(ConfigError::NoDecks)
    } else if players * hand_size >= full_deck_len(decks) - 1 {
        Some(ConfigError::HandsExceedDeck)
    } else {
        None
    }
}

/// The hand dealt to player `p` from the shuffled deck `s`: after the field card
/// is taken from the end of `s`, each player in turn takes `h` cards from the end.
pub open spec fn dealt_hand(s: Seq<Card>, p: int, h: int) -> Seq<Card> {
    Seq::new(h as nat, |t: int| s[s.len() - 2 - (p * h + t)])
}

/// The state in which a game set up with these parameters starts.
pub open spec fn initial_state(players: nat, decks: nat, hand_size: nat, seed: u64) -> GameModel {
    let s = seeded_shuffle(full_deck(decks), seed);
    GameModel {
        deck: s.take(s.len() - 1 - players * hand_size),
        field: seq![s.last()],
        hands: Seq::new(players, |p: int| dealt_hand(s, p, hand_size as int)),
        players,
        turn: 0,
        direction: false,
        seed: next_seed(seed),
        chainable: false,
        accum: 0,
    }
}

/// Replacing one hand changes `hand_total` by the difference in its length.
pub proof fn lemma_hand_total_update(hands: Seq<Seq<Card>>, i: int, h: Seq<Card>)
    requires
        0 <= i < hands.len(),
    ensures
        hand_total(hands.update(i, h)) == hand_total(hands) - hands[i].len() + h.len(),
    decreases hands.len(),
{
    let u = hands.update(i, h);
    if i < hands.len() - 1 {
        lemma_hand_total_update(hands.drop_last(), i, h);
        assert(u.drop_last() =~= hands.drop_last().update(i, h));
    } else {
        assert(u.drop_last() =~= hands.drop_last());
    }
}

/// `hand_total` of a sequence of hands that all have `h` cards.
pub proof fn lemma_hand_total_uniform(hands: Seq<Seq<Card>>, h: nat)
    requires
        forall|i: int| 0 <= i < hands.len() ==> #[trigger] hands[i].len() == h,
    ensures
        hand_total(hands) == hands.len() * h,
    decreases hands.len(),
{
    if hands.len() > 0 {
        lemma_hand_total_uniform(hands.drop_last(), h);
        let n = hands.len() as int;
        assert((n - 1) * h + h == n * h) by (nonlinear_arith);
    }
}

impl Game {
    /// Sets up a game: builds `deck_size` decks by doubling, shuffles them with a
    /// generator seeded from `seed`, turns the last card onto the field, and deals
    /// `hand_size` cards from the end of the deck to each player in order.
    pub fn init(players: usize, deck_size: usize, hand_size: usize, seed: u64) -> (r: Result<
        Game,
        ConfigError,
    >)
        requires
            deck_size >= 1 ==> full_deck_len(deck_size as nat) <= usize::MAX,
        ensures
            match r {
                Ok(g) => {
                    &&& config_error(players as nat, deck_size as nat, hand_size as nat) is None
                    &&& g@ == initial_state(
                        players as nat,
                        deck_size as nat,
                        hand_size as nat,
                        seed,
                    )
                    &&& g.wf()
                    &&& g@.card_count() == full_deck_len(deck_size as nat)
                    &&& g@.deck.len() + 1 + players * hand_size == full_deck_len(
                        deck_size as nat,
                    )
                },
                Err(e) => config_error(players as nat, deck_size as nat, hand_size as nat) == Some(
                    e,
                ),
            },
    {
        if players < 2 {
            return Err(ConfigError::TooFewPlayers);
        }
        if deck_size < 1 {
            return Err(ConfigError::NoDecks);
        }
        let mut cards = standard_deck();
        let mut n: usize = 1;
        proof {
            lemma_doubled_len(spec_standard_deck(), 0);
        }
        while n < deck_size
            invariant
                1 <= n <= deck_size,
                full_deck_len(deck_size as nat) <= usize::MAX,
                cards@ == doubled(spec_standard_deck(), (n - 1) as nat),
                cards@.len() == full_deck_len(n as nat),
            decreases deck_size - n,
        {
            proof {
                lemma_doubled_len(spec_standard_deck(), n as nat);
                lemma_two_pow_mono(n as nat, (deck_size - 1) as nat);
            }
            let mut copy = copy_cards(&cards);
            cards.append(&mut copy);
            n = n + 1;
        }
        proof {
            lemma_full_deck_len(deck_size as nat);
            lemma_two_pow_mono(0, (deck_size - 1) as nat);
        }
        let total = cards.len();
        let over = match players.checked_mul(hand_size) {
            Some(t) => t >= total - 1,
            None => true,
        };
        if over {
            return Err(ConfigError::HandsExceedDeck);
        }
        shuffle_cards(&mut cards, seed);
        let ghost s = cards@;
        let ghost dealt = players * hand_size;
        let top = cards.pop().unwrap();
        let mut field: Vec<Card> = Vec::new();
        field.push(top);
        let mut hands: Vec<Vec<Card>> = Vec::new();
        let mut i: usize = 0;
        let ghost mut taken: int = 0;
        while i < players
            invariant
                s.len() == total,
                dealt == players * hand_size,
                dealt < total - 1,
                i <= players,
                taken == i * hand_size,
                taken <= dealt,
                cards@ == s.take(total - 1 - taken),
                hands@.len() == i,
                forall|p: int| 0 <= p < i ==> #[trigger] hands@[p]@ == dealt_hand(s, p, hand_size as int),
            decreases players - i,
        {
            assert((i + 1) * hand_size <= players * hand_size && (i + 1) * hand_size == i * hand_size + hand_size) by (nonlinear_arith)
                requires i < players;
            let mut hand: Vec<Card> = Vec::new();
            let mut j: usize = 0;
            while j < hand_size
                invariant
                    s.len() == total,
                    dealt < total - 1,
                    taken + hand_size <= dealt,
                    taken == i * hand_size,
                    j <= hand_size,
                    cards@ == s.take(total - 1 - taken - j),
                    hand@ == Seq::new(j as nat, |t: int| s[s.len() - 2 - (taken + t)]),
                decreases hand_size - j,
            {
                let c = cards.pop().unwrap();
                hand.push(c);
                j = j + 1;
                assert(cards@ =~= s.take(total - 1 - taken - j));
                assert(hand@ =~= Seq::new(j as nat, |t: int| s[s.len() - 2 - (taken + t)]));
            }
            assert(hand@ =~= dealt_hand(s, i as int, hand_size as int));
            hands.push(hand);
            proof {
                taken = taken + hand_size;
            }
            i = i + 1;
        }
        let g = Game {
            deck: cards,
            field,
            hands,
            players,
            turn: 0,
            direction: false,
            seed: if seed == u64::MAX { 0 } else { seed + 1 },
            chainable: false,
            accum: 0,
        };
        let ghost init = initial_state(players as nat, deck_size as nat, hand_size as nat, seed);
        proof {
            assert(g@.hands =~= init.hands);
            assert(g@.field =~= init.field);
            lemma_hand_total_uniform(g@.hands, hand_size as nat);
        }
        Ok(g)
    }
}

/// `2^n` grows with `n`.
pub proof fn lemma_two_pow_mono(a: nat, b: nat)
    requires
        a <= b,
    ensures
        two_pow(a) <= two_pow(b),
        two_pow(a) >= 1,
    decreases b,
{
    if b > a {
        lemma_two_pow_mono(a, (b - 1) as nat);
    } else if a > 0 {
        lemma_two_pow_mono((a - 1) as nat, (a - 1) as nat);
    }
}

} // verus!
