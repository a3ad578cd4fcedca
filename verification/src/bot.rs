//! The dispatcher: the handlers it owns, the commands it collects from them at
//! startup, and what it does with each thing it receives.

use vstd::prelude::*;

use crate::commands::bundle::CommandBundle;
use crate::commands::bundle::CommandRegistration;
use crate::commands::deployment::Deployment;
use crate::commands::registry::names_of;
use crate::commands::registry::planned_batches;
use crate::commands::registry::registered_all;
use crate::commands::registry::CommandKey;
use crate::commands::registry::CommandRegistry;
use crate::text::reversed;

verus! {

/// What the transport hands to the receive loop.
pub enum Received<E> {
    /// An event, decoded.
    Event(E),
    /// Something that could not be decoded.
    Malformed,
    /// The end of the stream.
    Closed,
}

/// What the receive loop does next.
pub enum Step<E> {
    /// Hand `event` to every handler, each in a task of its own that nobody waits
    /// for: first to the `handlers` registered handlers, in the order of their
    /// registration, then to the command registry if `registry` says so. After
    /// that, let the cache see the event, and receive again.
    FanOut { event: E, handlers: usize, registry: bool },
    /// Leave the loop.
    Stop,
}

/// The dispatcher.
pub struct Bot<H, B> {
    handlers: Vec<H>,
    registry: Option<CommandRegistry<B>>,
    token: String,
}

/// All registrations of all lists, list after list.
pub open spec fn flattened<B>(parts: Seq<Vec<CommandRegistration<B>>>) -> Seq<CommandRegistration<B>>
    decreases parts.len(),
{
    if parts.len() == 0 {
        Seq::empty()
    } else {
        flattened(parts.drop_last()) + parts.last()@
    }
}

/// Joins the lists into one, list after list, keeping the order within each.
pub fn gather<B>(parts: Vec<Vec<CommandRegistration<B>>>) -> (all: Vec<CommandRegistration<B>>)
    ensures
        all@ == flattened(parts@),
{
    let ghost given = parts@;
    let mut waiting = reversed(parts);
    let mut all: Vec<CommandRegistration<B>> = Vec::new();
    let ghost mut done: int = 0;
    while waiting.len() > 0
        invariant
            0 <= done,
            waiting@.len() + done == given.len(),
            forall|i: int| 0 <= i < waiting@.len() ==> waiting@[i] == given[given.len() - 1 - i],
            all@ == flattened(given.subrange(0, done)),
        decreases waiting@.len(),
    {
        let mut part = waiting.pop().unwrap();
        proof {
            let longer = given.subrange(0, done + 1);
            assert(longer.drop_last() =~= given.subrange(0, done));
            assert(longer.last() == part);
            done = done + 1;
        }
        all.append(&mut part);
    }
    assert(given.subrange(0, done) =~= given);
    all
}

impl<H, B> Bot<H, B> {
    /// The handlers, in the order in which they were registered.
    pub closed spec fn handlers(&self) -> Seq<H> {
        self.handlers@
    }

    /// The command registry, once the commands have been made ready.
    pub closed spec fn registry(&self) -> Option<CommandRegistry<B>> {
        self.registry
    }

    /// The token the bot connects with.
    pub closed spec fn token(&self) -> Seq<char> {
        self.token@
    }

    /// A dispatcher without handlers.
    pub fn new(token: String) -> (bot: Self)
        ensures
            bot.handlers() == Seq::<H>::empty(),
            bot.registry() is None,
            bot.token() == token@,
    {
        Bot { handlers: Vec::new(), registry: None, token }
    }

    /// Adds a handler behind those that are there. A handler that is registered
    /// twice is there twice.
    pub fn register(&mut self, handler: H)
        ensures
            final(self).handlers() == old(self).handlers().push(handler),
            final(self).registry() == old(self).registry(),
            final(self).token() == old(self).token(),
    {
        self.handlers.push(handler);
    }

    /// The number of registered handlers.
    pub fn handler_count(&self) -> (count: usize)
        ensures
            count == self.handlers().len(),
    {
        self.handlers.len()
    }

    /// The handler at a place of the order of registration.
    pub fn handler(&self, index: usize) -> (handler: Option<&H>)
        ensures
            match handler {
                Some(handler) => index < self.handlers().len() && *handler
                    == self.handlers().index(index as int),
                None => index >= self.handlers().len(),
            },
    {
        if index < self.handlers.len() {
            Some(&self.handlers[index])
        } else {
            None
        }
    }

    /// The token the bot connects with.
    pub fn get_token(&self) -> (token: &str)
        ensures
            token@ == self.token(),
    {
        self.token.as_str()
    }

    /// The command registry, once the commands have been made ready.
    pub fn command_registry(&self) -> (registry: Option<&CommandRegistry<B>>)
        ensures
            match registry {
                Some(registry) => self.registry() == Some(*registry),
                None => self.registry() is None,
            },
    {
        match &self.registry {
            Some(registry) => Some(registry),
            None => None,
        }
    }

    /// Decides what the receive loop does with what it received. An event goes to
    /// every handler, and to the command registry if there is one; anything else
    /// ends the loop.
    pub fn dispatch<E>(&self, received: Received<E>) -> (step: Step<E>)
        ensures
            step == match received {
                Received::Event(event) => Step::FanOut {
                    event,
                    handlers: self.handlers().len() as usize,
                    registry: self.registry() is Some,
                },
                Received::Malformed => Step::Stop,
                Received::Closed => Step::Stop,
            },
    {
        match received {
            Received::Event(event) => Step::FanOut {
                event,
                handlers: self.handlers.len(),
                registry: self.registry.is_some(),
            },
            Received::Malformed => Step::Stop,
            Received::Closed => Step::Stop,
        }
    }
}

impl<B: CommandBundle, H> Bot<H, B> {
    /// Makes the commands ready. `parts` holds what each handler answered when
    /// asked for the commands it owns, in the order of the handlers. All of them
    /// are registered in one registry, in that order, each under its scope and the
    /// name it goes by, and the deployment of that registry is begun. The registry
    /// is not kept: it becomes a receiver of events through [`Bot::install`], once
    /// the deployment is done.
    pub fn ready_commands(&self, parts: Vec<Vec<CommandRegistration<B>>>) -> (deployment:
        Deployment<B>)
        ensures
            deployment.registry()@ == registered_all(
                Map::<CommandKey, B>::empty(),
                flattened(parts@),
                names_of(flattened(parts@)),
            ),
            deployment.pending() == planned_batches(
                deployment.registry().keys(),
                deployment.registry().commands(),
            ),
    {
        let all = gather(parts);
        let mut registry: CommandRegistry<B> = CommandRegistry::new();
        registry.register_commands(all);
        registry.begin_deployment()
    }
}

impl<H, B> Bot<H, B> {
    /// Keeps a deployed registry as one more receiver of events, behind the
    /// handlers. A registry that was kept before is replaced.
    pub fn install(&mut self, registry: CommandRegistry<B>)
        ensures
            final(self).registry() == Some(registry),
            final(self).handlers() == old(self).handlers(),
            final(self).token() == old(self).token(),
    {
        self.registry = Some(registry);
    }
}

} // verus!
