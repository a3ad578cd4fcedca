//! The entries of the individual boards.

use vstd::prelude::*;
use vstd::std_specs::convert::FromSpecImpl;

use crate::leaderboard::EmbarkId;
use crate::leaderboard::LeaderboardData;
use crate::leaderboard::PlayerInfo;
use crate::leaderboard::PlayerLeaderboardData;
use crate::text::str_eq;
use crate::text::trim;
use crate::text::trimmed_is_empty;

verus! {

/// Standing on the ranked cashout board.
#[derive(Debug, Clone)]
pub struct Season7RankedCashoutLeaderboardEntry {
    pub rank: u32,
    pub delta: i32,
    pub score: u64,
    pub league_number: i64,
}

/// Standing on the sponsor board.
#[derive(Debug, Clone)]
pub struct Season7SponsorLeaderboardEntry {
    pub rank: u32,
    pub sponsor: String,
    pub fans: u64,
}

/// Standing on the quick cash board.
#[derive(Debug, Clone)]
pub struct Season7QuickCashLeaderboardEntry {
    pub rank: u32,
    pub points: u64,
}

/// Standing on the world tour board.
#[derive(Debug, Clone)]
pub struct Season7WorldTourLeaderboardEntry {
    pub rank: u32,
    pub cashouts: u64,
}

/// Standing on the terminal attack board.
#[derive(Debug, Clone)]
pub struct Season7TerminalAttackLeaderboardEntry {
    pub rank: u32,
    pub points: u64,
}

/// Standing on the power shift board.
#[derive(Debug, Clone)]
pub struct Season7PowerShiftLeaderboardEntry {
    pub rank: u32,
    pub points: u64,
}

/// Standing on the team deathmatch board.
#[derive(Debug, Clone)]
pub struct Season7TeamDeathmatchLeaderboardEntry {
    pub rank: u32,
    pub points: u64,
}

/// Standing on the cash ball board.
#[derive(Debug, Clone)]
pub struct Season7CashBallLeaderboardEntry {
    pub rank: u32,
    pub points: u64,
}

/// The boards.
#[derive(Debug, Clone, Copy, PartialEq, Eq, Structural)]
pub enum Board {
    RankedCashout,
    Sponsor,
    WorldTour,
    TerminalAttack,
    PowerShift,
    QuickCash,
    TeamDeathmatch,
    CashBall,
}

impl Board {
    /// The board that a slug names, if it names one.
    pub open spec fn of_slug(slug: Seq<char>) -> Option<Board> {
        if slug == "s7"@ {
            Some(Board::RankedCashout)
        } else if slug == "s7s"@ {
            Some(Board::Sponsor)
        } else if slug == "s7wt"@ {
            Some(Board::WorldTour)
        } else if slug == "s7ta"@ {
            Some(Board::TerminalAttack)
        } else if slug == "s7ps"@ {
            Some(Board::PowerShift)
        } else if slug == "s7qc"@ {
            Some(Board::QuickCash)
        } else if slug == "s7tdm"@ {
            Some(Board::TeamDeathmatch)
        } else if slug == "s7cb"@ {
            Some(Board::CashBall)
        } else {
            None
        }
    }
}

/// Decides which board the rows fetched under `slug` belong to; `None` for a slug
/// that names no board, whose rows are all dropped.
pub fn parse_slug(slug: &str) -> (board: Option<Board>)
    ensures
        board == Board::of_slug(slug@),
{
    if str_eq(slug, "s7") {
        Some(Board::RankedCashout)
    } else if str_eq(slug, "s7s") {
        Some(Board::Sponsor)
    } else if str_eq(slug, "s7wt") {
        Some(Board::WorldTour)
    } else if str_eq(slug, "s7ta") {
        Some(Board::TerminalAttack)
    } else if str_eq(slug, "s7ps") {
        Some(Board::PowerShift)
    } else if str_eq(slug, "s7qc") {
        Some(Board::QuickCash)
    } else if str_eq(slug, "s7tdm") {
        Some(Board::TeamDeathmatch)
    } else if str_eq(slug, "s7cb") {
        Some(Board::CashBall)
    } else {
        None
    }
}

/// What a board gives where a whole number is expected.
#[derive(Debug, Clone)]
pub enum RawInt {
    /// A number that fits in 64 bits with sign.
    Integer(i64),
    /// A number that does not.
    OtherNumber,
    /// A text.
    Text(String),
    /// Anything else.
    Other,
}

/// Why a value is no whole number.
#[derive(Debug, Clone, Copy, PartialEq, Eq, Structural)]
pub enum ForceIntError {
    NotAnI64,
    ExpectedIntOrString,
}

/// The whole number that a raw value stands for: a number stands for its low 32
/// bits, a text that is blank for zero, and nothing else for a number.
pub open spec fn forced(raw: RawInt) -> Result<i32, ForceIntError> {
    match raw {
        RawInt::Integer(number) => Ok(number as i32),
        RawInt::OtherNumber => Err(ForceIntError::NotAnI64),
        RawInt::Text(text) => if trim(text@).len() == 0 {
            Ok(0i32)
        } else {
            Err(ForceIntError::ExpectedIntOrString)
        },
        RawInt::Other => Err(ForceIntError::ExpectedIntOrString),
    }
}

/// Reads a whole number where a board gives a number or, for "no change", a blank
/// text.
pub fn force_int(raw: &RawInt) -> (number: Result<i32, ForceIntError>)
    ensures
        number == forced(*raw),
{
    match raw {
        RawInt::Integer(number) => Ok(#[verifier::truncate] (*number as i32)),
        RawInt::OtherNumber => Err(ForceIntError::NotAnI64),
        RawInt::Text(text) => if trimmed_is_empty(text.as_str()) {
            Ok(0)
        } else {
            Err(ForceIntError::ExpectedIntOrString)
        },
        RawInt::Other => Err(ForceIntError::ExpectedIntOrString),
    }
}

/// A row of the ranked cashout board.
#[derive(Debug, Clone)]
pub struct Season7RankedCashoutRow {
    pub rank: u32,
    pub delta: i32,
    pub embark_id: String,
    pub league_number: i64,
    pub score: u64,
    pub steam_name: Option<String>,
    pub psn_name: Option<String>,
    pub xbox_name: Option<String>,
    pub club_tag: Option<String>,
}

/// A row of the sponsor board.
#[derive(Debug, Clone)]
pub struct Season7SponsorRow {
    pub rank: u32,
    pub embark_id: String,
    pub steam_name: Option<String>,
    pub psn_name: Option<String>,
    pub xbox_name: Option<String>,
    pub sponsor: String,
    pub fans: u64,
    pub club_tag: Option<String>,
}

/// A row of the quick cash board.
#[derive(Debug, Clone)]
pub struct Season7QuickCashRow {
    pub rank: u32,
    pub embark_id: String,
    pub points: u64,
    pub steam_name: Option<String>,
    pub psn_name: Option<String>,
    pub xbox_name: Option<String>,
    pub club_tag: Option<String>,
}

impl Season7RankedCashoutRow {
    /// The record of a player who is known from this row alone.
    pub open spec fn record(self) -> PlayerLeaderboardData {
        PlayerLeaderboardData {
            player_info: PlayerInfo {
                embark_id: EmbarkId(self.embark_id),
                steam_name: self.steam_name,
                psn_name: self.psn_name,
                xbox_name: self.xbox_name,
            },
            leaderboards: LeaderboardData {
                season_7_ranked_cashout_leaderboard_entry: Some(
                    Season7RankedCashoutLeaderboardEntry {
                        rank: self.rank,
                        delta: self.delta,
                        score: self.score,
                        league_number: self.league_number,
                    },
                ),
                ..LeaderboardData::unlisted()
            },
            club_tag: self.club_tag,
        }
    }
}

impl Season7SponsorRow {
    /// The record of a player who is known from this row alone.
    pub open spec fn record(self) -> PlayerLeaderboardData {
        PlayerLeaderboardData {
            player_info: PlayerInfo {
                embark_id: EmbarkId(self.embark_id),
                steam_name: self.steam_name,
                psn_name: self.psn_name,
                xbox_name: self.xbox_name,
            },
            leaderboards: LeaderboardData {
                season_7_sponsor_leaderboard_entry: Some(
                    Season7SponsorLeaderboardEntry {
                        rank: self.rank,
                        sponsor: self.sponsor,
                        fans: self.fans,
                    },
                ),
                ..LeaderboardData::unlisted()
            },
            club_tag: self.club_tag,
        }
    }
}

impl Season7QuickCashRow {
    /// The record of a player who is known from this row alone.
    pub open spec fn record(self) -> PlayerLeaderboardData {
        PlayerLeaderboardData {
            player_info: PlayerInfo {
                embark_id: EmbarkId(self.embark_id),
                steam_name: self.steam_name,
                psn_name: self.psn_name,
                xbox_name: self.xbox_name,
            },
            leaderboards: LeaderboardData {
                season_7_quick_cash_leaderboard_entry: Some(
                    Season7QuickCashLeaderboardEntry { rank: self.rank, points: self.points },
                ),
                ..LeaderboardData::unlisted()
            },
            club_tag: self.club_tag,
        }
    }
}

impl From<Season7RankedCashoutRow> for PlayerLeaderboardData {
    fn from(r: Season7RankedCashoutRow) -> (data: Self)
        ensures
            data == r.record(),
    {
        let player_info = PlayerInfo {
            embark_id: EmbarkId(r.embark_id),
            steam_name: r.steam_name,
            psn_name: r.psn_name,
            xbox_name: r.xbox_name,
        };
        let entry = Season7RankedCashoutLeaderboardEntry {
            rank: r.rank,
            delta: r.delta,
            score: r.score,
            league_number: r.league_number,
        };
        let mut leaderboards = LeaderboardData::default();
        leaderboards.season_7_ranked_cashout_leaderboard_entry = Some(entry);
        PlayerLeaderboardData { player_info, leaderboards, club_tag: r.club_tag }
    }
}

impl FromSpecImpl<Season7RankedCashoutRow> for PlayerLeaderboardData {
    open spec fn obeys_from_spec() -> bool {
        true
    }

    open spec fn from_spec(r: Season7RankedCashoutRow) -> Self {
        r.record()
    }
}

impl From<Season7SponsorRow> for PlayerLeaderboardData {
    fn from(r: Season7SponsorRow) -> (data: Self)
        ensures
            data == r.record(),
    {
        let player_info = PlayerInfo {
            embark_id: EmbarkId(r.embark_id),
            steam_name: r.steam_name,
            psn_name: r.psn_name,
            xbox_name: r.xbox_name,
        };
        let entry = Season7SponsorLeaderboardEntry { rank: r.rank, sponsor: r.sponsor, fans: r.fans };
        let mut leaderboards = LeaderboardData::default();
        leaderboards.season_7_sponsor_leaderboard_entry = Some(entry);
        PlayerLeaderboardData { player_info, leaderboards, club_tag: r.club_tag }
    }
}

impl FromSpecImpl<Season7SponsorRow> for PlayerLeaderboardData {
    open spec fn obeys_from_spec() -> bool {
        true
    }

    open spec fn from_spec(r: Season7SponsorRow) -> Self {
        r.record()
    }
}

impl From<Season7QuickCashRow> for PlayerLeaderboardData {
    fn from(r: Season7QuickCashRow) -> (data: Self)
        ensures
            data == r.record(),
    {
        let player_info = PlayerInfo {
            embark_id: EmbarkId(r.embark_id),
            steam_name: r.steam_name,
            psn_name: r.psn_name,
            xbox_name: r.xbox_name,
        };
        let entry = Season7QuickCashLeaderboardEntry { rank: r.rank, points: r.points };
        let mut leaderboards = LeaderboardData::default();
        leaderboards.season_7_quick_cash_leaderboard_entry = Some(entry);
        PlayerLeaderboardData { player_info, leaderboards, club_tag: r.club_tag }
    }
}

impl FromSpecImpl<Season7QuickCashRow> for PlayerLeaderboardData {
    open spec fn obeys_from_spec() -> bool {
        true
    }

    open spec fn from_spec(r: Season7QuickCashRow) -> Self {
        r.record()
    }
}

} // verus!
