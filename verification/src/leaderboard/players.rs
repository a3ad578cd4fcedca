//! Folding the rows of the boards into one record per player.

use vstd::prelude::*;

use crate::leaderboard::first_of;
use crate::leaderboard::PlayerInfo;
use crate::leaderboard::PlayerLeaderboardData;
use crate::text::reversed;

verus! {

/// What becomes of a player's record when another record of the same player is
/// folded into it: whatever the record holds is kept, whatever it lacks is taken
/// from the other.
pub open spec fn absorbed(
    existing: PlayerLeaderboardData,
    parsed: PlayerLeaderboardData,
) -> PlayerLeaderboardData {
    PlayerLeaderboardData {
        player_info: PlayerInfo {
            embark_id: existing.player_info.embark_id,
            steam_name: first_of(existing.player_info.steam_name, parsed.player_info.steam_name),
            psn_name: first_of(existing.player_info.psn_name, parsed.player_info.psn_name),
            xbox_name: first_of(existing.player_info.xbox_name, parsed.player_info.xbox_name),
        },
        leaderboards: existing.leaderboards.merged(parsed.leaderboards),
        club_tag: first_of(existing.club_tag, parsed.club_tag),
    }
}

/// The place of the record of the player `id`, if there is one.
pub open spec fn place_of(players: Seq<PlayerLeaderboardData>, id: Seq<char>) -> Option<int> {
    if exists|i: int| 0 <= i < players.len() && players[i].player_info.embark_id.0@ == id {
        Some(
            choose|i: int|
                0 <= i < players.len() && players[i].player_info.embark_id.0@ == id && forall|
                    j: int,
                | 0 <= j < i ==> players[j].player_info.embark_id.0@ != id,
        )
    } else {
        None
    }
}

/// One record per player: the rows folded in order, a row of a player who has a
/// record being folded into it, a row of a new player becoming that player's
/// record, behind the others.
pub open spec fn collected(rows: Seq<PlayerLeaderboardData>) -> Seq<PlayerLeaderboardData>
    decreases rows.len(),
{
    if rows.len() == 0 {
        Seq::empty()
    } else {
        let before = collected(rows.drop_last());
        let row = rows.last();
        match place_of(before, row.player_info.embark_id.0@) {
            Some(i) => before.update(i, absorbed(before[i], row)),
            None => before.push(row),
        }
    }
}

/// Folds another record of the same player into `existing`.
pub fn absorb(existing: &mut PlayerLeaderboardData, parsed: PlayerLeaderboardData)
    ensures
        *final(existing) == absorbed(*old(existing), parsed),
{
    existing.leaderboards.merge(parsed.leaderboards);
    if existing.club_tag.is_none() {
        existing.club_tag = parsed.club_tag;
    }
    if existing.player_info.steam_name.is_none() {
        existing.player_info.steam_name = parsed.player_info.steam_name;
    }
    if existing.player_info.psn_name.is_none() {
        existing.player_info.psn_name = parsed.player_info.psn_name;
    }
    if existing.player_info.xbox_name.is_none() {
        existing.player_info.xbox_name = parsed.player_info.xbox_name;
    }
}

fn find_player(players: &Vec<PlayerLeaderboardData>, id: &String) -> (place: Option<usize>)
    ensures
        match place {
            Some(i) => place_of(players@, id@) == Some(i as int) && i < players@.len(),
            None => place_of(players@, id@) is None,
        },
{
    let mut i: usize = 0;
    while i < players.len()
        invariant
            i <= players@.len(),
            forall|j: int| 0 <= j < i ==> players@[j].player_info.embark_id.0@ != id@,
        decreases players@.len() - i,
    {
        if players[i].player_info.embark_id.0 == *id {
            proof {
                let first = choose|k: int|
                    0 <= k < players@.len() && players@[k].player_info.embark_id.0@ == id@
                        && forall|j: int|
                        0 <= j < k ==> players@[j].player_info.embark_id.0@ != id@;
                assert(players@[i as int].player_info.embark_id.0@ == id@);
                assert(first == i);
            }
            return Some(i);
        }
        i += 1;
    }
    None
}

/// Folds rows into one record per player, in the order in which the players first
/// occur.
pub fn collect_players(rows: Vec<PlayerLeaderboardData>) -> (players: Vec<PlayerLeaderboardData>)
    ensures
        players@ == collected(rows@),
{
    let ghost given = rows@;
    let mut waiting = reversed(rows);
    let mut players: Vec<PlayerLeaderboardData> = Vec::new();
    let ghost mut done: int = 0;
    while waiting.len() > 0
        invariant
            0 <= done,
            waiting@.len() + done == given.len(),
            forall|i: int| 0 <= i < waiting@.len() ==> waiting@[i] == given[given.len() - 1 - i],
            players@ == collected(given.subrange(0, done)),
        decreases waiting@.len(),
    {
        let row = waiting.pop().unwrap();
        let ghost before = players@;
        proof {
            let longer = given.subrange(0, done + 1);
            assert(longer.drop_last() =~= given.subrange(0, done));
            assert(longer.last() == row);
            done = done + 1;
        }
        match find_player(&players, &row.player_info.embark_id.0) {
            Some(i) => {
                let mut existing = players.remove(i);
                absorb(&mut existing, row);
                players.insert(i, existing);
                assert(players@ =~= before.update(i as int, absorbed(before[i as int], row)));
            },
            None => {
                players.push(row);
            },
        }
    }
    assert(given.subrange(0, done) =~= given);
    players
}

} // verus!
