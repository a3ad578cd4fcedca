//! What the library reads of the things that the platform client fetches.

use vstd::prelude::*;

verus! {

/// A message of a channel, as far as the library reads it.
#[derive(Debug, Clone, Copy, PartialEq, Eq, Structural)]
pub struct MessageSummary {
    pub id: u64,
    /// Whether the author is a bot.
    pub author_is_bot: bool,
}

/// The place of the first message written by a bot, if there is one.
pub open spec fn first_by_bot(messages: Seq<MessageSummary>) -> Option<int> {
    if exists|i: int| 0 <= i < messages.len() && messages[i].author_is_bot {
        Some(
            choose|i: int|
                0 <= i < messages.len() && messages[i].author_is_bot && forall|j: int|
                    0 <= j < i ==> !messages[j].author_is_bot,
        )
    } else {
        None
    }
}

/// Picks, from the messages of a channel as they were fetched, newest first, the
/// first that a bot wrote.
pub fn get_last_bot_message(messages: &Vec<MessageSummary>) -> (id: Option<u64>)
    ensures
        id == match first_by_bot(messages@) {
            Some(i) => Some(messages@[i].id),
            None => None,
        },
{
    let mut i: usize = 0;
    while i < messages.len()
        invariant
            i <= messages@.len(),
            forall|j: int| 0 <= j < i ==> !messages@[j].author_is_bot,
        decreases messages@.len() - i,
    {
        if messages[i].author_is_bot {
            proof {
                let first = choose|k: int|
                    0 <= k < messages@.len() && messages@[k].author_is_bot && forall|j: int|
                        0 <= j < k ==> !messages@[j].author_is_bot;
                assert(messages@[i as int].author_is_bot);
                assert(first == i);
            }
            return Some(messages[i].id);
        }
        i += 1;
    }
    None
}

} // verus!
