//! Scoring for a single tennis game between two players.
//!
//! A [`TennisGame1`] holds one point counter per player. Awarding a point
//! increments the chosen counter, and the current standing is rendered as
//! the traditional score call: `Love`/`Fifteen`/`Thirty`/`Forty` pairs,
//! `Deuce`, `Advantage`, or `Win for` the leading player. The rendering
//! rules are captured by the spec function [`score_display`], which every
//! operation's contract refers back to.

use vstd::prelude::*;
use vstd::string::StrSliceExecFns;
use vstd::string::StringExecFns;

verus! {

/// One of the two players of a game.
pub enum Player {
    PlayerOne,
    PlayerTwo,
}

/// The named state a pair of point counts falls into. Exactly one class
/// applies to every pair: the scoring rules are tried in the order the
/// variants are listed, and the first that matches wins.
pub enum ScoreClass {
    /// The winner is at least four points up and leads by two or more.
    Win { winner: Player },
    /// The leader has at least four points and is exactly one point up.
    Advantage { leader: Player },
    /// Both players level at three points or more.
    Deuce,
    /// Both players level below three points.
    LevelLow { points: int },
    /// Any other standing: both counts are called by name.
    Mixed { first: int, second: int },
}

/// Whether a player with `points` has won against one with `opponent_points`.
pub open spec fn winning_score(points: int, opponent_points: int) -> bool {
    points >= opponent_points + 2 && points >= 4
}

/// Whether a player with `points` holds the advantage over one with
/// `opponent_points`.
pub open spec fn advantage_score(points: int, opponent_points: int) -> bool {
    points > opponent_points && points >= 4
}

/// Classify a pair of point counts, first count player one's, second
/// player two's. The rules are tried in order; the first match decides.
pub open spec fn score_class(a: int, b: int) -> ScoreClass {
    if winning_score(a, b) {
        ScoreClass::Win { winner: Player::PlayerOne }
    } else if winning_score(b, a) {
        ScoreClass::Win { winner: Player::PlayerTwo }
    } else if advantage_score(a, b) {
        ScoreClass::Advantage { leader: Player::PlayerOne }
    } else if advantage_score(b, a) {
        ScoreClass::Advantage { leader: Player::PlayerTwo }
    } else if a == b && a >= 3 {
        ScoreClass::Deuce
    } else if a == b {
        ScoreClass::LevelLow { points: a }
    } else {
        ScoreClass::Mixed { first: a, second: b }
    }
}

/// Display name of a raw point count: the traditional call for counts
/// zero through three, and the empty string for counts the name table
/// does not cover (those never reach a name position under the scoring
/// rules).
pub open spec fn point_name(n: int) -> Seq<char> {
    if n == 0 {
        "Love"@
    } else if n == 1 {
        "Fifteen"@
    } else if n == 2 {
        "Thirty"@
    } else if n == 3 {
        "Forty"@
    } else {
        ""@
    }
}

/// Display name of a single point count.
pub fn score_name(score: u32) -> (name: String)
    ensures
        name@ == point_name(score as int),
{
    match score {
        3 => "Forty".to_owned(),
        2 => "Thirty".to_owned(),
        1 => "Fifteen".to_owned(),
        0 => "Love".to_owned(),
        _ => "".to_owned(),
    }
}

/// The string a score class is rendered as.
pub open spec fn render_class(c: ScoreClass) -> Seq<char> {
    match c {
        ScoreClass::Win { winner } => match winner {
            Player::PlayerOne => "Win for player1"@,
            Player::PlayerTwo => "Win for player2"@,
        },
        ScoreClass::Advantage { leader } => match leader {
            Player::PlayerOne => "Advantage player1"@,
            Player::PlayerTwo => "Advantage player2"@,
        },
        ScoreClass::Deuce => "Deuce"@,
        ScoreClass::LevelLow { points } => point_name(points) + "-All"@,
        ScoreClass::Mixed { first, second } => point_name(first) + "-"@ + point_name(second),
    }
}

/// The full display string for a pair of point counts, first count
/// player one's, second player two's.
pub open spec fn score_display(a: int, b: int) -> Seq<char> {
    render_class(score_class(a, b))
}

/// Whether `player` (their point count) has won against `opponent`.
pub fn has_won(player: u32, opponent: u32) -> (won: bool)
    ensures
        won == winning_score(player as int, opponent as int),
{
    player >= 4 && player - 2 >= opponent
}

/// Whether `player` (their point count) holds the advantage over `opponent`.
pub fn has_advantage(player: u32, opponent: u32) -> (advantage: bool)
    ensures
        advantage == advantage_score(player as int, opponent as int),
{
    player > opponent && player >= 4
}

/// Whether the two point counts are level.
pub fn is_equal(s1: u32, s2: u32) -> (equal: bool)
    ensures
        equal == (s1 == s2),
{
    s1 == s2
}

/// Whether the two point counts are level at three points or more: deuce.
pub fn is_equal_above_3(s1: u32, s2: u32) -> (deuce: bool)
    ensures
        deuce == (s1 == s2 && s1 >= 3),
{
    s1 == s2 && s1 >= 3
}

/// The other player.
pub open spec fn mirror_player(p: Player) -> Player {
    match p {
        Player::PlayerOne => Player::PlayerTwo,
        Player::PlayerTwo => Player::PlayerOne,
    }
}

/// A score class with the two players' roles swapped.
pub open spec fn mirror_class(c: ScoreClass) -> ScoreClass {
    match c {
        ScoreClass::Win { winner } => ScoreClass::Win { winner: mirror_player(winner) },
        ScoreClass::Advantage { leader } => ScoreClass::Advantage {
            leader: mirror_player(leader),
        },
        ScoreClass::Deuce => ScoreClass::Deuce,
        ScoreClass::LevelLow { points } => ScoreClass::LevelLow { points },
        ScoreClass::Mixed { first, second } => ScoreClass::Mixed { first: second, second: first },
    }
}

/// Swapping the two counters mirrors the score: the swapped game is in
/// the player-swapped class, so its display string is the mirrored
/// class's rendering ("Advantage player1" becomes "Advantage player2",
/// "Forty-Thirty" becomes "Thirty-Forty", "Deuce" stays "Deuce").
pub proof fn lemma_score_symmetry(a: int, b: int)
    ensures
        score_class(b, a) == mirror_class(score_class(a, b)),
        score_display(b, a) == render_class(mirror_class(score_class(a, b))),
{
}

/// Rendering is idempotent: two renderings of one unchanged standing are
/// the same string, since the display is a pure function of the two
/// counters.
pub proof fn lemma_render_deterministic(first: Seq<char>, second: Seq<char>, a: int, b: int)
    requires
        first == score_display(a, b),
        second == score_display(a, b),
    ensures
        first == second,
{
}

/// At low scores the display is total over the name table: while both
/// counts are at most three, every standing but deuce is called with the
/// two counts' names (levelled ones in the `-All` form), and each name is
/// one of `Love`, `Fifteen`, `Thirty`, `Forty`.
pub proof fn lemma_low_score_names(a: int, b: int)
    requires
        0 <= a <= 3,
        0 <= b <= 3,
    ensures
        a != b ==> score_display(a, b) == point_name(a) + "-"@ + point_name(b),
        a == b && a < 3 ==> score_display(a, b) == point_name(a) + "-All"@,
        a == b && a == 3 ==> score_display(a, b) == "Deuce"@,
        point_name(a) == "Love"@ || point_name(a) == "Fifteen"@ || point_name(a) == "Thirty"@
            || point_name(a) == "Forty"@,
{
}

/// The identifier that selects player one in [`TennisGame::won_point`].
/// Any other identifier selects player two.
pub open spec fn player1_id() -> Seq<char> {
    "player1"@
}

/// A game of tennis: award points to a named player and render the
/// current score.
pub trait TennisGame: Sized {
    /// Player one's point count.
    spec fn player1_points(&self) -> nat;

    /// Player two's point count.
    spec fn player2_points(&self) -> nat;

    /// Award one point: to player one when `player_name` is the player-one
    /// identifier, to player two otherwise. The other counter is untouched.
    fn won_point(&mut self, player_name: &str)
        requires
            old(self).player1_points() < u32::MAX,
            old(self).player2_points() < u32::MAX,
        ensures
            player_name@ == player1_id() ==> final(self).player1_points() == old(
                self,
            ).player1_points() + 1 && final(self).player2_points() == old(self).player2_points(),
            player_name@ != player1_id() ==> final(self).player2_points() == old(
                self,
            ).player2_points() + 1 && final(self).player1_points() == old(self).player1_points(),
    ;

    /// Render the current standing; a pure view of the two counters.
    fn get_score(&self) -> (score: String)
        ensures
            score@ == score_display(self.player1_points() as int, self.player2_points() as int),
    ;
}

/// The score tracker: one point counter per player, both starting at zero.
pub struct TennisGame1 {
    player_1_score: u32,
    player_2_score: u32,
}

impl Default for TennisGame1 {
    /// A fresh game: both counters at zero.
    fn default() -> (game: Self)
        ensures
            game.player1_points() == 0,
            game.player2_points() == 0,
    {
        TennisGame1 { player_1_score: 0, player_2_score: 0 }
    }
}

/// Whether `name` is exactly the player-one identifier, compared
/// character by character.
fn is_player1_name(name: &str) -> (matched: bool)
    ensures
        matched == (name@ == player1_id()),
{
    proof {
        reveal_strlit("player1");
    }
    let len = name.unicode_len();
    if len != 7 {
        return false;
    }
    let pattern = "player1";
    let mut i: usize = 0;
    while i < 7
        invariant
            name@.len() == 7,
            pattern@ == player1_id(),
            pattern@.len() == 7,
            i <= 7,
            forall|j: int| 0 <= j < i ==> name@[j] == pattern@[j],
        decreases 7 - i,
    {
        if name.get_char(i) != pattern.get_char(i) {
            return false;
        }
        i = i + 1;
    }
    proof {
        assert(name@ =~= player1_id());
    }
    true
}

impl TennisGame for TennisGame1 {
    closed spec fn player1_points(&self) -> nat {
        self.player_1_score as nat
    }

    closed spec fn player2_points(&self) -> nat {
        self.player_2_score as nat
    }

    fn won_point(&mut self, player_name: &str) {
        if is_player1_name(player_name) {
            self.player_1_score = self.player_1_score + 1;
        } else {
            self.player_2_score = self.player_2_score + 1;
        }
    }

    fn get_score(&self) -> (score: String) {
        let s1 = self.player_1_score;
        let s2 = self.player_2_score;
        if has_won(s1, s2) {
            "Win for player1".to_owned()
        } else if has_won(s2, s1) {
            "Win for player2".to_owned()
        } else if has_advantage(s1, s2) {
            "Advantage player1".to_owned()
        } else if has_advantage(s2, s1) {
            "Advantage player2".to_owned()
        } else if is_equal_above_3(s1, s2) {
            "Deuce".to_owned()
        } else if is_equal(s1, s2) {
            score_name(s1).concat("-All")
        } else {
            score_name(s1).concat("-").concat(score_name(s2).as_str())
        }
    }
}

} // verus!
