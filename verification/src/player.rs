//! One player's seat at the table.

use vstd::prelude::*;

verus! {

/// Identifies a player.
pub type IDsize = u64;

/// A card, or a number of cards.
pub type Cardsize = u8;

/// A bid: how many cards the bidder offers to turn over.
pub type Bidsize = u8;

/// Points won in the current game.
pub type Pointsize = u8;

/// The card that ends a flip. Every other card is black.
pub const RED_CARD: Cardsize = 0;

/// The highest card there is.
pub const MAX_CARD: Cardsize = 3;

/// The points that win a game.
pub const WINNING_POINTS: Pointsize = 2;

/// What the table knows about a player.
pub struct PlayerState {
    pub name: String,
    pub owned: Vec<Cardsize>,
    pub placed: Vec<Cardsize>,
    pub bid: Option<Bidsize>,
    pub points: Pointsize,
    pub passed: bool,
}

/// The mathematical content of a [`PlayerState`].
#[verifier::ext_equal]
pub struct PlayerView {
    pub name: Seq<char>,
    pub owned: Seq<Cardsize>,
    pub placed: Seq<Cardsize>,
    pub bid: Option<Bidsize>,
    pub points: Pointsize,
    pub passed: bool,
}

impl View for PlayerState {
    type V = PlayerView;

    open spec fn view(&self) -> PlayerView {
        PlayerView {
            name: self.name@,
            owned: self.owned@,
            placed: self.placed@,
            bid: self.bid,
            points: self.points,
            passed: self.passed,
        }
    }
}

/// The hand of a player who has lost no card: the red card and three black ones.
pub open spec fn full_hand() -> Seq<Cardsize> {
    seq![0u8, 1u8, 2u8, 3u8]
}

/// The occasions on which every player's seat is cleared.
#[derive(Clone, Copy, PartialEq, Eq, Structural)]
pub enum Reset {
    /// A game starts from the lobby.
    GameStart,
    /// The next round of a running game starts.
    NextRound,
    /// A game has been won and the table returns to the lobby.
    GameWon,
}

impl PlayerView {
    /// A player who has just joined under `name`.
    pub open spec fn joined(name: Seq<char>) -> PlayerView {
        PlayerView {
            name,
            owned: full_hand(),
            placed: Seq::empty(),
            bid: None,
            points: 0,
            passed: false,
        }
    }

    /// The seat after a reset. The stack of placed cards and the bid go in every case; a game
    /// start also clears the points, a new round the pass, and a won game the pass and the
    /// lost cards.
    pub open spec fn reset(self, reset: Reset) -> PlayerView {
        let cleared = PlayerView { placed: Seq::empty(), bid: None, ..self };
        match reset {
            Reset::GameStart => PlayerView { points: 0, ..cleared },
            Reset::NextRound => PlayerView { passed: false, ..cleared },
            Reset::GameWon => PlayerView { passed: false, owned: full_hand(), ..cleared },
        }
    }
}

impl PlayerState {
    /// Seats a new player.
    pub fn joined(name: String) -> (player: PlayerState)
        ensures
            player@ == PlayerView::joined(name@),
    {
        let player = PlayerState {
            name,
            owned: vec![0, 1, 2, 3],
            placed: Vec::new(),
            bid: None,
            points: 0,
            passed: false,
        };
        assert(player@ =~= PlayerView::joined(name@));
        player
    }

    /// Clears the seat.
    pub fn reset(&mut self, reset: Reset)
        ensures
            final(self)@ == old(self)@.reset(reset),
    {
        self.placed = Vec::new();
        self.bid = None;
        match reset {
            Reset::GameStart => {
                self.points = 0;
            },
            Reset::NextRound => {
                self.passed = false;
            },
            Reset::GameWon => {
                self.owned = vec![0, 1, 2, 3];
                self.passed = false;
            },
        }
        assert(self@ =~= old(self)@.reset(reset));
    }
}

} // verus!
