use embark_sync::leaderboard::parsers::Season7CashBallLeaderboardEntry;
use embark_sync::leaderboard::parsers::Season7QuickCashLeaderboardEntry;
use embark_sync::leaderboard::parsers::Season7RankedCashoutLeaderboardEntry;
use embark_sync::leaderboard::parsers::Season7SponsorLeaderboardEntry;
use embark_sync::leaderboard::LeaderboardData;

fn quick_cash(rank: u32) -> Option<Season7QuickCashLeaderboardEntry> {
    Some(Season7QuickCashLeaderboardEntry { rank, points: 10 })
}

#[test]
fn unlisted_player_counts_zero() {
    assert_eq!(LeaderboardData::default().number_of_leaderboards_some(), 0);
}

#[test]
fn each_board_counts_once_and_cash_ball_twice() {
    let mut data = LeaderboardData::default();
    data.season_7_quick_cash_leaderboard_entry = quick_cash(1);
    assert_eq!(data.number_of_leaderboards_some(), 1);
    data.season_7_sponsor_leaderboard_entry =
        Some(Season7SponsorLeaderboardEntry { rank: 2, sponsor: "s".to_string(), fans: 3 });
    assert_eq!(data.number_of_leaderboards_some(), 2);
    data.season_7_cash_ball_leaderboard_entry =
        Some(Season7CashBallLeaderboardEntry { rank: 1, points: 1 });
    assert_eq!(data.number_of_leaderboards_some(), 4);
}

#[test]
fn merge_fills_gaps_and_keeps_own_entries() {
    let mut mine = LeaderboardData::default();
    mine.season_7_quick_cash_leaderboard_entry = quick_cash(1);
    let mut theirs = LeaderboardData::default();
    theirs.season_7_quick_cash_leaderboard_entry = quick_cash(2);
    theirs.season_7_ranked_cashout_leaderboard_entry = Some(Season7RankedCashoutLeaderboardEntry {
        rank: 5,
        delta: -1,
        score: 100,
        league_number: 3,
    });
    mine.merge(theirs);
    assert_eq!(mine.season_7_quick_cash_leaderboard_entry.as_ref().unwrap().rank, 1);
    let ranked = mine.season_7_ranked_cashout_leaderboard_entry.as_ref().unwrap();
    assert_eq!((ranked.rank, ranked.delta, ranked.score, ranked.league_number), (5, -1, 100, 3));
    assert!(mine.season_7_sponsor_leaderboard_entry.is_none());
    assert_eq!(mine.number_of_leaderboards_some(), 2);
}

#[test]
fn merge_with_unlisted_changes_nothing() {
    let mut mine = LeaderboardData::default();
    mine.season_7_quick_cash_leaderboard_entry = quick_cash(1);
    mine.merge(LeaderboardData::default());
    assert_eq!(mine.number_of_leaderboards_some(), 1);
    assert_eq!(mine.season_7_quick_cash_leaderboard_entry.unwrap().rank, 1);
}
