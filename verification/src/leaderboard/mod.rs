//! Per-player leaderboard records and the rule by which two records of one player
//! are folded into one.

use vstd::prelude::*;

pub mod page;
pub mod parsers;
pub mod players;

use crate::leaderboard::parsers::Season7CashBallLeaderboardEntry;
use crate::leaderboard::parsers::Season7PowerShiftLeaderboardEntry;
use crate::leaderboard::parsers::Season7QuickCashLeaderboardEntry;
use crate::leaderboard::parsers::Season7RankedCashoutLeaderboardEntry;
use crate::leaderboard::parsers::Season7SponsorLeaderboardEntry;
use crate::leaderboard::parsers::Season7TeamDeathmatchLeaderboardEntry;
use crate::leaderboard::parsers::Season7TerminalAttackLeaderboardEntry;
use crate::leaderboard::parsers::Season7WorldTourLeaderboardEntry;

verus! {

/// The identifier under which a player is listed on a board, as the board prints it.
#[derive(Debug, Clone)]
pub struct EmbarkId(pub String);

/// The names a player carries on the linked platforms.
#[derive(Debug, Clone)]
pub struct PlayerInfo {
    pub embark_id: EmbarkId,
    pub steam_name: Option<String>,
    pub psn_name: Option<String>,
    pub xbox_name: Option<String>,
}

/// Everything known about one player: who they are and where they stand.
#[derive(Debug, Clone)]
pub struct PlayerLeaderboardData {
    pub player_info: PlayerInfo,
    pub leaderboards: LeaderboardData,
    pub club_tag: Option<String>,
}

/// A player's standing on each board, absent where the player is not listed.
#[derive(Debug, Clone)]
pub struct LeaderboardData {
    pub season_7_ranked_cashout_leaderboard_entry: Option<Season7RankedCashoutLeaderboardEntry>,
    pub season_7_sponsor_leaderboard_entry: Option<Season7SponsorLeaderboardEntry>,
    pub season_7_world_tour_leaderboard_entry: Option<Season7WorldTourLeaderboardEntry>,
    pub season_7_terminal_attack_leaderboard_entry: Option<Season7TerminalAttackLeaderboardEntry>,
    pub season_7_power_shift_leaderboard_entry: Option<Season7PowerShiftLeaderboardEntry>,
    pub season_7_quick_cash_leaderboard_entry: Option<Season7QuickCashLeaderboardEntry>,
    pub season_7_team_deathmatch_leaderboard_entry: Option<Season7TeamDeathmatchLeaderboardEntry>,
    pub season_7_cash_ball_leaderboard_entry: Option<Season7CashBallLeaderboardEntry>,
}

/// One if the entry is present, zero otherwise.
pub open spec fn listed<T>(entry: Option<T>) -> int {
    if entry is Some {
        1
    } else {
        0
    }
}

/// The left entry where there is one, else the right one.
pub open spec fn first_of<T>(left: Option<T>, right: Option<T>) -> Option<T> {
    if left is Some {
        left
    } else {
        right
    }
}

impl Default for LeaderboardData {
    fn default() -> (data: Self)
        ensures
            data == Self::unlisted(),
    {
        LeaderboardData {
            season_7_ranked_cashout_leaderboard_entry: None,
            season_7_sponsor_leaderboard_entry: None,
            season_7_world_tour_leaderboard_entry: None,
            season_7_terminal_attack_leaderboard_entry: None,
            season_7_power_shift_leaderboard_entry: None,
            season_7_quick_cash_leaderboard_entry: None,
            season_7_team_deathmatch_leaderboard_entry: None,
            season_7_cash_ball_leaderboard_entry: None,
        }
    }
}

impl LeaderboardData {
    /// The record of a player who is on no board.
    pub open spec fn unlisted() -> Self {
        LeaderboardData {
            season_7_ranked_cashout_leaderboard_entry: None,
            season_7_sponsor_leaderboard_entry: None,
            season_7_world_tour_leaderboard_entry: None,
            season_7_terminal_attack_leaderboard_entry: None,
            season_7_power_shift_leaderboard_entry: None,
            season_7_quick_cash_leaderboard_entry: None,
            season_7_team_deathmatch_leaderboard_entry: None,
            season_7_cash_ball_leaderboard_entry: None,
        }
    }

    /// The tally that `number_of_leaderboards_some` reports: one for each board the
    /// player is listed on, and one more for the cash ball board, which is looked
    /// at both first and last.
    pub open spec fn tally(self) -> int {
        listed(self.season_7_cash_ball_leaderboard_entry)
            + listed(self.season_7_ranked_cashout_leaderboard_entry)
            + listed(self.season_7_sponsor_leaderboard_entry)
            + listed(self.season_7_world_tour_leaderboard_entry)
            + listed(self.season_7_terminal_attack_leaderboard_entry)
            + listed(self.season_7_power_shift_leaderboard_entry)
            + listed(self.season_7_quick_cash_leaderboard_entry)
            + listed(self.season_7_team_deathmatch_leaderboard_entry)
            + listed(self.season_7_cash_ball_leaderboard_entry)
    }

    /// What `merge` leaves in `self`: board by board, the entry of `self` where it
    /// has one, else the entry of `other`.
    pub open spec fn merged(self, other: Self) -> Self {
        LeaderboardData {
            season_7_ranked_cashout_leaderboard_entry: first_of(
                self.season_7_ranked_cashout_leaderboard_entry,
                other.season_7_ranked_cashout_leaderboard_entry,
            ),
            season_7_sponsor_leaderboard_entry: first_of(
                self.season_7_sponsor_leaderboard_entry,
                other.season_7_sponsor_leaderboard_entry,
            ),
            season_7_world_tour_leaderboard_entry: first_of(
                self.season_7_world_tour_leaderboard_entry,
                other.season_7_world_tour_leaderboard_entry,
            ),
            season_7_terminal_attack_leaderboard_entry: first_of(
                self.season_7_terminal_attack_leaderboard_entry,
                other.season_7_terminal_attack_leaderboard_entry,
            ),
            season_7_power_shift_leaderboard_entry: first_of(
                self.season_7_power_shift_leaderboard_entry,
                other.season_7_power_shift_leaderboard_entry,
            ),
            season_7_quick_cash_leaderboard_entry: first_of(
                self.season_7_quick_cash_leaderboard_entry,
                other.season_7_quick_cash_leaderboard_entry,
            ),
            season_7_team_deathmatch_leaderboard_entry: first_of(
                self.season_7_team_deathmatch_leaderboard_entry,
                other.season_7_team_deathmatch_leaderboard_entry,
            ),
            season_7_cash_ball_leaderboard_entry: first_of(
                self.season_7_cash_ball_leaderboard_entry,
                other.season_7_cash_ball_leaderboard_entry,
            ),
        }
    }

    /// Counts the boards the player is listed on; the cash ball board counts twice.
    pub fn number_of_leaderboards_some(&self) -> (count: i8)
        ensures
            count == self.tally(),
            0 <= count <= 9,
    {
        let mut count: i8 = 0;

        if self.season_7_cash_ball_leaderboard_entry.is_some() {
            count += 1;
        }
        if self.season_7_ranked_cashout_leaderboard_entry.is_some() {
            count += 1;
        }
        if self.season_7_sponsor_leaderboard_entry.is_some() {
            count += 1;
        }
        if self.season_7_world_tour_leaderboard_entry.is_some() {
            count += 1;
        }
        if self.season_7_terminal_attack_leaderboard_entry.is_some() {
            count += 1;
        }
        if self.season_7_power_shift_leaderboard_entry.is_some() {
            count += 1;
        }
        if self.season_7_quick_cash_leaderboard_entry.is_some() {
            count += 1;
        }
        if self.season_7_team_deathmatch_leaderboard_entry.is_some() {
            count += 1;
        }
        if self.season_7_cash_ball_leaderboard_entry.is_some() {
            count += 1;
        }
        count
    }

    /// Fills every board on which `self` has no entry with the entry of `other`.
    /// Entries that `self` already holds are kept.
    pub fn merge(&mut self, other: Self)
        ensures
            *final(self) == old(self).merged(other),
    {
        if self.season_7_ranked_cashout_leaderboard_entry.is_none() {
            self.season_7_ranked_cashout_leaderboard_entry =
                other.season_7_ranked_cashout_leaderboard_entry;
        }
        if self.season_7_sponsor_leaderboard_entry.is_none() {
            self.season_7_sponsor_leaderboard_entry = other.season_7_sponsor_leaderboard_entry;
        }
        if self.season_7_world_tour_leaderboard_entry.is_none() {
            self.season_7_world_tour_leaderboard_entry =
                other.season_7_world_tour_leaderboard_entry;
        }
        if self.season_7_terminal_attack_leaderboard_entry.is_none() {
            self.season_7_terminal_attack_leaderboard_entry =
                other.season_7_terminal_attack_leaderboard_entry;
        }
        if self.season_7_power_shift_leaderboard_entry.is_none() {
            self.season_7_power_shift_leaderboard_entry =
                other.season_7_power_shift_leaderboard_entry;
        }
        if self.season_7_quick_cash_leaderboard_entry.is_none() {
            self.season_7_quick_cash_leaderboard_entry =
                other.season_7_quick_cash_leaderboard_entry;
        }
        if self.season_7_team_deathmatch_leaderboard_entry.is_none() {
            self.season_7_team_deathmatch_leaderboard_entry =
                other.season_7_team_deathmatch_leaderboard_entry;
        }
        if self.season_7_cash_ball_leaderboard_entry.is_none() {
            self.season_7_cash_ball_leaderboard_entry = other.season_7_cash_ball_leaderboard_entry;
        }
    }
}

/// Merging a record with itself or with an unlisted one changes nothing; an
/// unlisted record takes everything from the other; merging the same record in
/// twice is merging it in once; and merging never lowers the tally.
pub proof fn lemma_merge_keeps_own_entries(a: LeaderboardData, b: LeaderboardData)
    ensures
        a.merged(a) == a,
        a.merged(LeaderboardData::unlisted()) == a,
        LeaderboardData::unlisted().merged(b) == b,
        a.merged(b).merged(b) == a.merged(b),
        a.tally() <= a.merged(b).tally(),
{
}

/// Merging is associative: folding three records left to right or right to left
/// gives the same record.
pub proof fn lemma_merge_associative(a: LeaderboardData, b: LeaderboardData, c: LeaderboardData)
    ensures
        a.merged(b).merged(c) == a.merged(b.merged(c)),
{
}

} // verus!
