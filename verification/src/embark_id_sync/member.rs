//! What a member is told on joining, and what verification changes about them.

use vstd::prelude::*;
use vstd::string::*;

use crate::data::rendered;
use crate::data::EmbarkID;
use crate::data::GuildSettings;
use crate::text::decimal;
use crate::text::decimal_text;

verus! {

/// What is done for a member who joined a community that is set up.
pub struct Joined {
    /// Whether the member is marked as verified right away, in this community and
    /// in every other community they share with the bot that is set up.
    pub mark_verified: bool,
    /// What the member is told in a direct message.
    pub notice: String,
}

/// The name a community goes by in a notice: its own where it is known.
pub open spec fn shown_name(guild_name: Option<Seq<char>>) -> Seq<char> {
    match guild_name {
        Some(name) => name,
        None => "a guild"@,
    }
}

/// What a member without a linked identifier is told: where to get one linked.
pub open spec fn invitation(guild_name: Option<Seq<char>>, channel: u64) -> Seq<char> {
    "`"@ + shown_name(guild_name)
        + "` uses this bot for Embark ID linking.\nPlease go to <#"@ + decimal(channel as nat)
        + "> and follow the instructions to link your account."@
}

/// What a member with a linked identifier is told: that nothing is left to do.
pub open spec fn reminder(guild_name: Option<Seq<char>>, embark_id: Seq<char>) -> Seq<char> {
    "`"@ + shown_name(guild_name)
        + "` uses this bot for Embark ID linking.\n                                             \nSince your have already linked your account (`"@
        + embark_id + "`) there is nothing that you need to do. GLHF Contestant!"@
}

/// The characters of a name that may be absent.
pub open spec fn name_view(name: Option<&str>) -> Option<Seq<char>> {
    match name {
        Some(name) => Some(name@),
        None => None,
    }
}

/// Decides what is done for a member who joined. In a community that is not set
/// up nothing is done. A member without a linked identifier is invited to the
/// verification channel. A member with one is marked as verified and told so.
pub fn member_joined(
    guild_name: Option<&str>,
    settings: Option<&GuildSettings>,
    linked: Option<&EmbarkID>,
) -> (joined: Option<Joined>)
    ensures
        joined is Some <==> settings is Some,
        joined matches Some(joined) ==> {
            &&& joined.mark_verified == (linked is Some)
            &&& joined.notice@ == match linked {
                Some(embark_id) => reminder(name_view(guild_name), rendered(embark_id@)),
                None => invitation(name_view(guild_name), settings->0.verification_channel),
            }
        },
{
    let settings = match settings {
        Some(settings) => settings,
        None => {
            return None;
        },
    };
    let name = match guild_name {
        Some(name) => name,
        None => "a guild",
    };
    let start = String::from_str("`").concat(name);
    match linked {
        None => {
            let notice = start.concat(
                "` uses this bot for Embark ID linking.\nPlease go to <#",
            ).concat(decimal_text(settings.verification_channel).as_str()).concat(
                "> and follow the instructions to link your account.",
            );
            Some(Joined { mark_verified: false, notice })
        },
        Some(embark_id) => {
            let notice = start.concat(
                "` uses this bot for Embark ID linking.\n                                             \nSince your have already linked your account (`",
            ).concat(embark_id.to_string().as_str()).concat(
                "`) there is nothing that you need to do. GLHF Contestant!",
            );
            Some(Joined { mark_verified: true, notice })
        },
    }
}

/// What marking a member as verified changes: the roles the member is to have and
/// the nickname the member is to go by.
pub struct MemberUpdate {
    pub roles: Vec<u64>,
    pub nick: String,
}

/// Decides what a verified member looks like in a community: the roles they have,
/// then the community's role for verified members, and their identifier as their
/// nickname.
pub fn update_user(current_roles: Vec<u64>, embark_id: &EmbarkID, settings: &GuildSettings) -> (update:
    MemberUpdate)
    ensures
        update.roles@ == current_roles@.push(settings.verified_role),
        update.nick@ == rendered(embark_id@),
{
    let mut roles = current_roles;
    roles.push(settings.verified_role);
    MemberUpdate { roles, nick: embark_id.to_string() }
}

} // verus!
