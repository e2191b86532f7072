use rand::Rng;
use vstd::prelude::*;
use crate::moves::{Move, Variant};

verus! {

/// How a bot chooses among the legal moves.
#[derive(Clone, Copy, Debug, PartialEq, Eq, Structural)]
pub enum BotType {
    /// Any move, uniformly at random.
    Random,
    /// The first move of the highest play priority, keeping number cards for last.
    Conservative,
}

/// A player that picks its own moves.
pub struct Bot {
    pub strategy: BotType,
}

/// The play priority of a move kind, from a deck draw (lowest) to a DrawFour (highest).
pub open spec fn priority(v: Variant) -> nat {
    match v {
        Variant::DrawDeck => 0,
        Variant::Play => 1,
        Variant::Reverse => 2,
        Variant::Skip => 3,
        Variant::Draw2 => 4,
        Variant::Draw4 => 5,
    }
}

/// `i` is the first position in `moves` of a move with the highest priority.
pub open spec fn is_conservative_pick(moves: Seq<Move>, i: int) -> bool {
    &&& 0 <= i < moves.len()
    &&& forall|j: int|
        0 <= j < moves.len() ==> priority(#[trigger] moves[j].variant) <= priority(
            moves[i].variant,
        )
    &&& forall|j: int|
        0 <= j < i ==> priority(#[trigger] moves[j].variant) < priority(moves[i].variant)
}

fn rank(v: Variant) -> (r: u8)
    ensures
        r == priority(v),
{
    match v {
        Variant::DrawDeck => 0,
        Variant::Play => 1,
        Variant::Reverse => 2,
        Variant::Skip => 3,
        Variant::Draw2 => 4,
        Variant::Draw4 => 5,
    }
}

/// Relies on `rand::thread_rng` and `Rng::gen_range`, which returns a value of the
/// half-open range `0..n` and panics only when that range is empty.
#[verifier::external_body]
fn random_index(n: usize) -> (r: usize)
    requires
        n > 0,
    ensures
        r < n,
{
    rand::thread_rng().gen_range(0..n)
}

/// The first position of a move with the highest priority.
pub fn conservative_pick(moves: &Vec<Move>) -> (r: usize)
    requires
        moves@.len() > 0,
    ensures
        is_conservative_pick(moves@, r as int),
{
    let mut best: usize = 0;
    let mut best_rank = rank(moves[0].variant);
    let mut i: usize = 1;
    while i < moves.len()
        invariant
            1 <= i <= moves@.len(),
            best < i,
            best_rank == priority(moves@[best as int].variant),
            forall|j: int|
                0 <= j < i ==> priority(#[trigger] moves@[j].variant) <= best_rank,
            forall|j: int| 0 <= j < best ==> priority(#[trigger] moves@[j].variant) < best_rank,
        decreases moves@.len() - i,
    {
        let r = rank(moves[i].variant);
        if r > best_rank {
            best = i;
            best_rank = r;
        }
        i = i + 1;
    }
    best
}

impl Bot {
    /// The position of the move this bot picks, given `drawn`, a position drawn
    /// at random for a random bot.
    pub fn pick(&self, moves: &Vec<Move>, drawn: usize) -> (r: usize)
        requires
            moves@.len() > 0,
            drawn < moves@.len(),
        ensures
            self.strategy == BotType::Random ==> r == drawn,
            self.strategy == BotType::Conservative ==> is_conservative_pick(moves@, r as int),
    {
        match self.strategy {
            BotType::Random => drawn,
            BotType::Conservative => conservative_pick(moves),
        }
    }

    /// The position of the move this bot picks among `moves`.
    pub fn run(&self, moves: &Vec<Move>) -> (r: usize)
        requires
            moves@.len() > 0,
        ensures
            r < moves@.len(),
            self.strategy == BotType::Conservative ==> is_conservative_pick(moves@, r as int),
    {
        let drawn = match self.strategy {
            BotType::Random => random_index(moves.len()),
            BotType::Conservative => 0,
        };
        self.pick(moves, drawn)
    }
}

} // verus!
