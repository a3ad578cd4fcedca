//! The registry of commands: which command answers to which name, everywhere or
//! in one community.

use std::sync::Arc;
use twilight_model::application::command::Command;
use vstd::prelude::*;

use crate::commands::bundle::CommandBundle;
use crate::commands::bundle::CommandRegistration;
use crate::commands::bundle::CommandScope;
use crate::text::reversed;

verus! {

/// Where a name is registered and the name: `None` stands for the global scope,
/// `Some(id)` for the community `id`.
pub type CommandKey = (Option<u64>, Seq<char>);

/// The scopes of the listed communities.
pub open spec fn guild_buckets(guilds: Seq<u64>) -> Set<Option<u64>> {
    Set::new(|bucket: Option<u64>| bucket matches Some(guild) && guilds.contains(guild))
}

/// The scopes that a registration reaches.
pub open spec fn buckets_of(scope: CommandScope) -> Set<Option<u64>> {
    match scope {
        CommandScope::Global => set![None],
        CommandScope::Guild(guild) => set![Some(guild)],
        CommandScope::Guilds(guilds) => guild_buckets(guilds@),
    }
}

/// The catalog after `command` has been registered as `name` in each of `buckets`:
/// there, `name` now stands for `command`, whatever it stood for before; everything
/// else is as it was.
pub open spec fn registered_in<B>(
    catalog: Map<CommandKey, B>,
    buckets: Set<Option<u64>>,
    name: Seq<char>,
    command: B,
) -> Map<CommandKey, B> {
    Map::new(
        |key: CommandKey| catalog.contains_key(key) || (buckets.contains(key.0) && key.1 == name),
        |key: CommandKey|
            if buckets.contains(key.0) && key.1 == name {
                command
            } else {
                catalog[key]
            },
    )
}

/// The catalog after `command` has been registered as `name` under `scope`.
pub open spec fn registered<B>(
    catalog: Map<CommandKey, B>,
    scope: CommandScope,
    name: Seq<char>,
    command: B,
) -> Map<CommandKey, B> {
    registered_in(catalog, buckets_of(scope), name, command)
}

/// The catalog after each of `registrations` has been registered, one after the
/// other, the i-th under the i-th of `names`.
pub open spec fn registered_all<B>(
    catalog: Map<CommandKey, B>,
    registrations: Seq<CommandRegistration<B>>,
    names: Seq<Seq<char>>,
) -> Map<CommandKey, B>
    decreases registrations.len(),
{
    if registrations.len() == 0 {
        catalog
    } else {
        registered(
            registered_all(catalog, registrations.drop_last(), names.drop_last()),
            registrations.last().scope,
            names.last(),
            registrations.last().command,
        )
    }
}

/// The command that `name` stands for when invoked from `guild_id`: the one
/// registered for that community if there is one, else the global one, else none.
pub open spec fn resolved<B>(catalog: Map<CommandKey, B>, name: Seq<char>, guild_id: Option<u64>) -> Option<B> {
    if guild_id is Some && catalog.contains_key((guild_id, name)) {
        Some(catalog[(guild_id, name)])
    } else if catalog.contains_key((None, name)) {
        Some(catalog[(None, name)])
    } else {
        None
    }
}

/// The catalog that lists `commands[i]` under `keys[i]`.
pub open spec fn catalog_of<B>(keys: Seq<CommandKey>, commands: Seq<B>) -> Map<CommandKey, B> {
    Map::new(
        |key: CommandKey| keys.contains(key),
        |key: CommandKey| commands[keys.index_of(key)],
    )
}

/// The command behind a shared handle.
spec fn pointee<B>(shared: Arc<B>) -> B {
    *shared
}

/// The scopes among the first `n` keys that are global (if `global`) or a
/// community's (if not), each once, in the order in which they first occur, behind
/// the scopes of `found`.
pub open spec fn scopes_upto(
    found: Seq<Option<u64>>,
    keys: Seq<CommandKey>,
    n: int,
    global: bool,
) -> Seq<Option<u64>>
    decreases n,
{
    if n <= 0 {
        found
    } else {
        let before = scopes_upto(found, keys, n - 1, global);
        let bucket = keys[n - 1].0;
        if (bucket is None) == global && !before.contains(bucket) {
            before.push(bucket)
        } else {
            before
        }
    }
}

/// The scopes that hold at least one command, each once: the global scope first,
/// then the communities in the order in which they first got a command.
pub open spec fn scopes_in_order(keys: Seq<CommandKey>) -> Seq<Option<u64>> {
    scopes_upto(scopes_upto(Seq::empty(), keys, keys.len() as int, true), keys, keys.len() as int, false)
}

/// How many of the first `n` keys lie in `bucket`.
pub open spec fn count_in(keys: Seq<CommandKey>, bucket: Option<u64>, n: int) -> nat
    decreases n,
{
    if n <= 0 {
        0
    } else if keys[n - 1].0 == bucket {
        count_in(keys, bucket, n - 1) + 1
    } else {
        count_in(keys, bucket, n - 1)
    }
}

/// The name that each command of a list goes by.
pub open spec fn names_of<B: CommandBundle>(registrations: Seq<CommandRegistration<B>>) -> Seq<
    Seq<char>,
> {
    Seq::new(registrations.len(), |i: int| registrations[i].command.named())
}

/// The descriptors of the commands among the first `n` that are registered in
/// `bucket`, in the order in which their names were first registered.
pub open spec fn descriptors_in<B: CommandBundle>(
    keys: Seq<CommandKey>,
    commands: Seq<B>,
    bucket: Option<u64>,
    n: int,
) -> Seq<Command>
    decreases n,
{
    if n <= 0 {
        Seq::empty()
    } else if keys[n - 1].0 == bucket {
        descriptors_in(keys, commands, bucket, n - 1).push(commands[n - 1].descriptor())
    } else {
        descriptors_in(keys, commands, bucket, n - 1)
    }
}

/// The mathematical value of a batch.
pub struct CommandBatchView {
    pub guild_id: Option<u64>,
    pub definitions: Seq<Command>,
}

/// The batches that bring the platform up to date with a catalog: one for each
/// scope that holds a command, in the order of the scopes, each with the
/// descriptors of all commands of its scope.
pub open spec fn planned_batches<B: CommandBundle>(keys: Seq<CommandKey>, commands: Seq<B>) -> Seq<
    CommandBatchView,
> {
    Seq::new(
        scopes_in_order(keys).len(),
        |i: int|
            CommandBatchView {
                guild_id: scopes_in_order(keys)[i],
                definitions: descriptors_in(
                    keys,
                    commands,
                    scopes_in_order(keys)[i],
                    keys.len() as int,
                ),
            },
    )
}

/// The value of each batch of a list.
pub open spec fn batch_views(batches: Seq<CommandBatch>) -> Seq<CommandBatchView> {
    Seq::new(batches.len(), |i: int| batches[i]@)
}

/// The descriptors of all commands of one scope, to be handed to the platform in
/// one call that replaces whatever the platform held for that scope.
#[derive(Debug, Clone)]
pub struct CommandBatch {
    /// The community, or `None` for the global scope.
    pub guild_id: Option<u64>,
    pub definitions: Vec<Command>,
}

impl View for CommandBatch {
    type V = CommandBatchView;

    open spec fn view(&self) -> CommandBatchView {
        CommandBatchView { guild_id: self.guild_id, definitions: self.definitions@ }
    }
}

struct Entry<B> {
    bucket: Option<u64>,
    name: String,
    command: Arc<B>,
}

/// The commands that are registered, each under the scope and name it answers to.
/// Within one scope a name stands for one command.
pub struct CommandRegistry<B> {
    entries: Vec<Entry<B>>,
}

impl<B> View for CommandRegistry<B> {
    type V = Map<CommandKey, B>;

    open spec fn view(&self) -> Map<CommandKey, B> {
        catalog_of(self.keys(), self.commands())
    }
}

impl<B> CommandRegistry<B> {
    /// Scope and name of each registered command, in the order in which they were
    /// first registered.
    pub closed spec fn keys(&self) -> Seq<CommandKey> {
        Seq::new(self.entries@.len(), |i: int| (self.entries@[i].bucket, self.entries@[i].name@))
    }

    /// The registered commands, in the order of [`CommandRegistry::keys`].
    pub closed spec fn commands(&self) -> Seq<B> {
        Seq::new(self.entries@.len(), |i: int| *self.entries@[i].command)
    }

    #[verifier::type_invariant]
    spec fn well_formed(&self) -> bool {
        self.keys().no_duplicates()
    }

    /// A registry without commands.
    pub fn new() -> (registry: Self)
        ensures
            registry@ == Map::<CommandKey, B>::empty(),
            registry.keys() == Seq::<CommandKey>::empty(),
    {
        let registry = CommandRegistry { entries: Vec::new() };
        assert(registry.keys() =~= Seq::<CommandKey>::empty());
        assert(registry@ =~= Map::<CommandKey, B>::empty());
        registry
    }

    /// The number of registered commands, a command counting once for each scope
    /// it is registered in.
    pub fn len(&self) -> (count: usize)
        ensures
            count == self.keys().len(),
            count == self@.dom().len(),
    {
        proof {
            use_type_invariant(self);
            lemma_catalog_size(self.keys(), self.commands());
        }
        self.entries.len()
    }

    fn position(&self, bucket: Option<u64>, name: &String) -> (place: Option<usize>)
        ensures
            match place {
                Some(i) => i < self.keys().len() && self.keys()[i as int] == (bucket, name@),
                None => !self.keys().contains((bucket, name@)),
            },
    {
        let mut i: usize = 0;
        while i < self.entries.len()
            invariant
                i <= self.entries@.len(),
                forall|j: int| 0 <= j < i ==> self.keys()[j] != (bucket, name@),
            decreases self.entries@.len() - i,
        {
            if same_bucket(self.entries[i].bucket, bucket) && self.entries[i].name == *name {
                return Some(i);
            }
            i += 1;
        }
        None
    }

    fn insert(&mut self, bucket: Option<u64>, name: String, command: Arc<B>)
        ensures
            final(self)@ == old(self)@.insert((bucket, name@), *command),
            final(self).keys() == if old(self).keys().contains((bucket, name@)) {
                old(self).keys()
            } else {
                old(self).keys().push((bucket, name@))
            },
    {
        proof {
            use_type_invariant(&*self);
        }
        let ghost keys = self.keys();
        let ghost commands = self.commands();
        let ghost key = (bucket, name@);
        let ghost held = pointee(command);
        let place = self.position(bucket, &name);
        let mut entries: Vec<Entry<B>> = Vec::new();
        assert(Seq::new(
            entries@.len(),
            |i: int| (entries@[i].bucket, entries@[i].name@),
        ).no_duplicates());
        std::mem::swap(&mut self.entries, &mut entries);
        match place {
            Some(i) => {
                entries.set(i, Entry { bucket, name, command });
            },
            None => {
                entries.push(Entry { bucket, name, command });
            },
        }
        proof {
            let now = Seq::new(entries@.len(), |i: int| (entries@[i].bucket, entries@[i].name@));
            let held_now = Seq::new(entries@.len(), |i: int| *entries@[i].command);
            match place {
                Some(i) => {
                    assert(now =~= keys);
                    assert(held_now =~= commands.update(i as int, held));
                    lemma_catalog_update(keys, commands, i as int, held);
                },
                None => {
                    assert(now =~= keys.push(key));
                    assert(held_now =~= commands.push(held));
                    lemma_catalog_push(keys, commands, key, held);
                },
            }
        }
        std::mem::swap(&mut self.entries, &mut entries);
        proof {
            match place {
                Some(i) => {
                    assert(self.keys() =~= keys);
                    assert(self.commands() =~= commands.update(i as int, held));
                },
                None => {
                    assert(self.keys() =~= keys.push(key));
                    assert(self.commands() =~= commands.push(held));
                },
            }
        }
    }

    /// Registers `command` as `name` under `scope`. A command that was registered
    /// under the same name in one of the scopes is replaced there. Under
    /// `Guilds`, every listed community gets the same command, not a copy of its
    /// own.
    pub fn register(&mut self, scope: CommandScope, name: String, command: B)
        ensures
            final(self)@ == registered(old(self)@, scope, name@, command),
    {
        let ghost before = self@;
        let shared = Arc::new(command);
        match scope {
            CommandScope::Global => {
                self.insert(None, name, shared);
                assert(self@ =~= registered(before, scope, name@, command));
            },
            CommandScope::Guild(guild) => {
                self.insert(Some(guild), name, shared);
                assert(self@ =~= registered(before, scope, name@, command));
            },
            CommandScope::Guilds(guilds) => {
                let mut i: usize = 0;
                assert(self@ =~= registered_in(
                    before,
                    guild_buckets(guilds@.subrange(0, 0)),
                    name@,
                    command,
                ));
                while i < guilds.len()
                    invariant
                        i <= guilds@.len(),
                        *shared == command,
                        self@ == registered_in(
                            before,
                            guild_buckets(guilds@.subrange(0, i as int)),
                            name@,
                            command,
                        ),
                    decreases guilds@.len() - i,
                {
                    let ghost reached = guild_buckets(guilds@.subrange(0, i as int));
                    let guild = guilds[i];
                    self.insert(Some(guild), name.clone(), Arc::clone(&shared));
                    i += 1;
                    proof {
                        let now = guild_buckets(guilds@.subrange(0, i as int));
                        assert forall|bucket: Option<u64>| now.contains(bucket) <==> (
                        reached.contains(bucket) || bucket == Some(guild)) by {
                            let shorter = guilds@.subrange(0, i - 1);
                            let longer = guilds@.subrange(0, i as int);
                            assert(longer =~= shorter.push(guild));
                            if bucket is Some {
                                let g = bucket->0;
                                if shorter.contains(g) {
                                    let k = choose|k: int| 0 <= k < shorter.len() && shorter[k] == g;
                                    assert(longer[k] == g);
                                }
                                if g == guild {
                                    assert(longer[i - 1] == g);
                                }
                            }
                        }
                        assert(self@ =~= registered_in(before, now, name@, command));
                    }
                }
                assert(guilds@.subrange(0, i as int) =~= guilds@);
            },
        }
    }

    /// Looks a command up by the name it was invoked with and the community it was
    /// invoked from. A command registered for that community comes before a global
    /// one of the same name.
    pub fn find_command(&self, name: &str, guild_id: Option<u64>) -> (found: Option<&B>)
        ensures
            match found {
                Some(command) => resolved(self@, name@, guild_id) == Some(*command),
                None => resolved(self@, name@, guild_id) is None,
            },
    {
        proof {
            use_type_invariant(self);
        }
        let wanted = name.to_owned();
        match guild_id {
            Some(_) => {
                match self.position(guild_id, &wanted) {
                    Some(i) => {
                        proof {
                            lemma_catalog_lists(self.keys(), self.commands(), i as int);
                        }
                        return Some(&*self.entries[i].command);
                    },
                    None => {},
                }
            },
            None => {},
        }
        match self.position(None, &wanted) {
            Some(i) => {
                proof {
                    lemma_catalog_lists(self.keys(), self.commands(), i as int);
                }
                Some(&*self.entries[i].command)
            },
            None => None,
        }
    }
}

impl<B: CommandBundle> CommandRegistry<B> {
    fn scope_list(&self) -> (scopes: Vec<Option<u64>>)
        ensures
            scopes@ == scopes_in_order(self.keys()),
    {
        let mut scopes: Vec<Option<u64>> = Vec::new();
        let n = self.entries.len();
        let mut i: usize = 0;
        while i < n
            invariant
                i <= n,
                n == self.entries@.len(),
                n == self.keys().len(),
                scopes@ == scopes_upto(Seq::empty(), self.keys(), i as int, true),
            decreases n - i,
        {
            let bucket = self.entries[i].bucket;
            assert(bucket == self.keys()[i as int].0);
            if bucket.is_none() && !holds(&scopes, bucket) {
                scopes.push(bucket);
            }
            i += 1;
        }
        let ghost globals = scopes@;
        let mut i: usize = 0;
        while i < n
            invariant
                i <= n,
                n == self.entries@.len(),
                n == self.keys().len(),
                globals == scopes_upto(Seq::empty(), self.keys(), n as int, true),
                scopes@ == scopes_upto(globals, self.keys(), i as int, false),
            decreases n - i,
        {
            let bucket = self.entries[i].bucket;
            assert(bucket == self.keys()[i as int].0);
            if bucket.is_some() && !holds(&scopes, bucket) {
                scopes.push(bucket);
            }
            i += 1;
        }
        scopes
    }

    /// The calls that bring the platform up to date: one batch for the global
    /// scope if it holds a command, then one for each community that holds one, in
    /// the order in which the communities first got a command. Each batch holds
    /// the descriptor of every command of its scope, one for each name, in the
    /// order in which the names were first registered there.
    pub fn deploy(&self) -> (batches: Vec<CommandBatch>)
        ensures
            batch_views(batches@) == planned_batches(self.keys(), self.commands()),
    {
        let scopes = self.scope_list();
        let n = self.entries.len();
        let mut batches: Vec<CommandBatch> = Vec::new();
        let mut s: usize = 0;
        while s < scopes.len()
            invariant
                s <= scopes@.len(),
                n == self.entries@.len(),
                n == self.keys().len(),
                n == self.commands().len(),
                scopes@ == scopes_in_order(self.keys()),
                batches@.len() == s,
                forall|i: int|
                    0 <= i < batches@.len() ==> (#[trigger] batches@[i])@ == planned_batches(
                        self.keys(),
                        self.commands(),
                    )[i],
            decreases scopes@.len() - s,
        {
            let scope = scopes[s];
            let mut definitions: Vec<Command> = Vec::new();
            let mut i: usize = 0;
            while i < n
                invariant
                    i <= n,
                    n == self.entries@.len(),
                    n == self.keys().len(),
                    n == self.commands().len(),
                    definitions@ == descriptors_in(self.keys(), self.commands(), scope, i as int),
                decreases n - i,
            {
                assert(self.entries@[i as int].bucket == self.keys()[i as int].0);
                assert(*self.entries@[i as int].command == self.commands()[i as int]);
                if same_bucket(self.entries[i].bucket, scope) {
                    definitions.push(self.entries[i].command.definition());
                }
                i += 1;
            }
            batches.push(CommandBatch { guild_id: scope, definitions });
            s += 1;
        }
        assert(batch_views(batches@) =~= planned_batches(self.keys(), self.commands()));
        batches
    }

    /// Registers each command under its scope and under the name it goes by, in
    /// the order of the list: a later registration replaces an earlier one of the
    /// same name in the same scope.
    pub fn register_commands(&mut self, registrations: Vec<CommandRegistration<B>>)
        ensures
            final(self)@ == registered_all(
                old(self)@,
                registrations@,
                names_of(registrations@),
            ),
    {
        let ghost before = self@;
        let ghost mut done: Seq<CommandRegistration<B>> = Seq::empty();
        let mut waiting = reversed(registrations);
        while waiting.len() > 0
            invariant
                waiting@.len() + done.len() == registrations@.len(),
                done == registrations@.subrange(0, done.len() as int),
                forall|i: int|
                    0 <= i < waiting@.len() ==> waiting@[i] == registrations@[registrations@.len()
                        - 1 - i],
                self@ == registered_all(before, done, names_of(done)),
            decreases waiting@.len(),
        {
            let registration = waiting.pop().unwrap();
            let name = registration.command.name();
            proof {
                let longer = done.push(registration);
                assert(longer.drop_last() =~= done);
                assert(names_of(longer).drop_last() =~= names_of(done));
                assert(names_of(longer).last() == name@);
                assert(longer =~= registrations@.subrange(0, done.len() as int + 1));
                done = longer;
            }
            self.register(registration.scope, name, registration.command);
        }
        assert(done =~= registrations@);
    }
}

fn holds(scopes: &Vec<Option<u64>>, bucket: Option<u64>) -> (found: bool)
    ensures
        found == scopes@.contains(bucket),
{
    let mut i: usize = 0;
    while i < scopes.len()
        invariant
            i <= scopes@.len(),
            forall|j: int| 0 <= j < i ==> scopes@[j] != bucket,
        decreases scopes@.len() - i,
    {
        if same_bucket(scopes[i], bucket) {
            return true;
        }
        i += 1;
    }
    false
}

fn same_bucket(a: Option<u64>, b: Option<u64>) -> (same: bool)
    ensures
        same == (a == b),
{
    match (a, b) {
        (Some(x), Some(y)) => x == y,
        (None, None) => true,
        _ => false,
    }
}

/// A catalog lists each of its keys with the command at the same place.
pub proof fn lemma_catalog_lists<B>(keys: Seq<CommandKey>, commands: Seq<B>, i: int)
    requires
        keys.no_duplicates(),
        keys.len() == commands.len(),
        0 <= i < keys.len(),
    ensures
        catalog_of(keys, commands).contains_key(keys[i]),
        catalog_of(keys, commands)[keys[i]] == commands[i],
{
    let j = keys.index_of(keys[i]);
    assert(keys[j] == keys[i]);
}

/// A catalog has as many entries as it has keys.
pub proof fn lemma_catalog_size<B>(keys: Seq<CommandKey>, commands: Seq<B>)
    requires
        keys.no_duplicates(),
    ensures
        catalog_of(keys, commands).dom().finite(),
        catalog_of(keys, commands).dom().len() == keys.len(),
{
    keys.unique_seq_to_set();
    assert(catalog_of(keys, commands).dom() =~= keys.to_set());
}

/// Replacing the command at one place is inserting it under the key of that place.
pub proof fn lemma_catalog_update<B>(keys: Seq<CommandKey>, commands: Seq<B>, i: int, command: B)
    requires
        keys.no_duplicates(),
        keys.len() == commands.len(),
        0 <= i < keys.len(),
    ensures
        catalog_of(keys, commands.update(i, command)) == catalog_of(keys, commands).insert(
            keys[i],
            command,
        ),
{
    let changed = catalog_of(keys, commands.update(i, command));
    let inserted = catalog_of(keys, commands).insert(keys[i], command);
    assert forall|key: CommandKey| changed.contains_key(key) implies #[trigger] changed[key]
        == inserted[key] by {
        let j = keys.index_of(key);
        assert(keys[j] == key);
    }
    assert(changed =~= inserted);
}

/// Appending a key that is new is inserting its command under it.
pub proof fn lemma_catalog_push<B>(
    keys: Seq<CommandKey>,
    commands: Seq<B>,
    key: CommandKey,
    command: B,
)
    requires
        keys.no_duplicates(),
        keys.len() == commands.len(),
        !keys.contains(key),
    ensures
        keys.push(key).no_duplicates(),
        catalog_of(keys.push(key), commands.push(command)) == catalog_of(keys, commands).insert(
            key,
            command,
        ),
{
    let longer = keys.push(key);
    let grown = catalog_of(longer, commands.push(command));
    let inserted = catalog_of(keys, commands).insert(key, command);
    assert forall|other: CommandKey| grown.contains_key(other) <==> inserted.contains_key(
        other,
    ) by {
        if keys.contains(other) {
            let j = keys.index_of(other);
            assert(longer[j] == other);
        }
        if other == key {
            assert(longer[keys.len() as int] == key);
        }
    }
    assert forall|other: CommandKey| grown.contains_key(other) implies #[trigger] grown[other]
        == inserted[other] by {
        let j = longer.index_of(other);
        assert(longer[j] == other);
        if other != key {
            let k = keys.index_of(other);
            assert(keys[k] == other);
            assert(longer[k] == other);
        }
    }
    assert(grown =~= inserted);
}

/// Last write wins. Registering a second command under the same scope and name
/// leaves no trace of the first: the catalog is the one that the second
/// registration alone would have made, and in every scope that the registration
/// reaches the name stands for the second command.
pub proof fn lemma_last_registration_wins<B>(
    catalog: Map<CommandKey, B>,
    scope: CommandScope,
    name: Seq<char>,
    first: B,
    second: B,
)
    ensures
        registered(registered(catalog, scope, name, first), scope, name, second) == registered(
            catalog,
            scope,
            name,
            second,
        ),
        forall|bucket: Option<u64>| #[trigger]
            buckets_of(scope).contains(bucket) ==> registered(
                registered(catalog, scope, name, first),
                scope,
                name,
                second,
            )[(bucket, name)] == second,
        scope is Global ==> resolved(
            registered(registered(catalog, scope, name, first), scope, name, second),
            name,
            None,
        ) == Some(second),
{
    assert(registered(registered(catalog, scope, name, first), scope, name, second) =~= registered(
        catalog,
        scope,
        name,
        second,
    ));
}

/// One command for every listed community. After a registration under `Guilds`,
/// a lookup from any of the listed communities finds the registered command: all
/// of them find the same one.
pub proof fn lemma_guilds_share_one_command<B>(
    catalog: Map<CommandKey, B>,
    guilds: Vec<u64>,
    name: Seq<char>,
    command: B,
)
    ensures
        forall|guild: u64| #[trigger]
            guilds@.contains(guild) ==> resolved(
                registered(catalog, CommandScope::Guilds(guilds), name, command),
                name,
                Some(guild),
            ) == Some(command),
{
    let after = registered(catalog, CommandScope::Guilds(guilds), name, command);
    assert forall|guild: u64| #[trigger] guilds@.contains(guild) implies resolved(
        after,
        name,
        Some(guild),
    ) == Some(command) by {
        assert(guild_buckets(guilds@).contains(Some(guild)));
        assert(after.contains_key((Some(guild), name)));
    }
}

/// A community's command shadows the global one. Where a name is registered both
/// for a community and globally, a lookup from that community finds the
/// community's command; a lookup from nowhere, or from a community that has no
/// command of that name, finds the global one.
pub proof fn lemma_community_shadows_global<B>(
    catalog: Map<CommandKey, B>,
    name: Seq<char>,
    guild: u64,
    other: u64,
)
    requires
        catalog.contains_key((Some(guild), name)),
        catalog.contains_key((None, name)),
        !catalog.contains_key((Some(other), name)),
    ensures
        resolved(catalog, name, Some(guild)) == Some(catalog[(Some(guild), name)]),
        resolved(catalog, name, None) == Some(catalog[(None, name)]),
        resolved(catalog, name, Some(other)) == Some(catalog[(None, name)]),
{
}

/// What one pass over the keys adds to the scopes found so far: nothing is lost or
/// moved, nothing is listed twice, and what is new is exactly the scopes of the
/// wanted kind that occur among the keys.
pub proof fn lemma_scopes_upto(found: Seq<Option<u64>>, keys: Seq<CommandKey>, n: int, global: bool)
    requires
        0 <= n <= keys.len(),
        found.no_duplicates(),
    ensures
        scopes_upto(found, keys, n, global).no_duplicates(),
        found.len() <= scopes_upto(found, keys, n, global).len(),
        scopes_upto(found, keys, n, global).subrange(0, found.len() as int) == found,
        forall|bucket: Option<u64>| #[trigger]
            scopes_upto(found, keys, n, global).contains(bucket) <==> found.contains(bucket) || (
            (bucket is None) == global && count_in(keys, bucket, n) > 0),
    decreases n,
{
    let now = scopes_upto(found, keys, n, global);
    if n <= 0 {
        assert(now.subrange(0, found.len() as int) =~= found);
    } else {
        lemma_scopes_upto(found, keys, n - 1, global);
        let before = scopes_upto(found, keys, n - 1, global);
        let last = keys[n - 1].0;
        assert(now.subrange(0, found.len() as int) =~= before.subrange(0, found.len() as int));
        assert forall|bucket: Option<u64>| #[trigger]
            now.contains(bucket) <==> found.contains(bucket) || ((bucket is None) == global
                && count_in(keys, bucket, n) > 0) by {
            if before.contains(bucket) {
                let k = choose|k: int| 0 <= k < before.len() && before[k] == bucket;
                assert(now[k] == bucket);
            }
            if now.contains(bucket) {
                let k = choose|k: int| 0 <= k < now.len() && now[k] == bucket;
                if k < before.len() {
                    assert(before[k] == bucket);
                }
            }
            if now.len() > before.len() {
                assert(now[before.len() as int] == last);
            }
        }
    }
}

/// The order of the batches. No scope has two batches; a scope has a batch exactly
/// if at least one command is registered in it; and the global scope, where it has
/// one, has the first.
pub proof fn lemma_scopes_in_order(keys: Seq<CommandKey>)
    ensures
        scopes_in_order(keys).no_duplicates(),
        forall|bucket: Option<u64>| #[trigger]
            scopes_in_order(keys).contains(bucket) <==> count_in(
                keys,
                bucket,
                keys.len() as int,
            ) > 0,
        forall|bucket: Option<u64>| #[trigger]
            scopes_in_order(keys).contains(bucket) <==> exists|i: int|
                0 <= i < keys.len() && (#[trigger] keys[i]).0 == bucket,
        forall|i: int|
            0 <= i < scopes_in_order(keys).len() && #[trigger] scopes_in_order(keys)[i] is None
                ==> i == 0,
{
    assert forall|bucket: Option<u64>| #[trigger]
        scopes_in_order(keys).contains(bucket) <==> exists|i: int|
            0 <= i < keys.len() && (#[trigger] keys[i]).0 == bucket by {
        lemma_count_in(keys, bucket, keys.len() as int);
        lemma_scopes_upto(Seq::empty(), keys, keys.len() as int, true);
        lemma_scopes_upto(
            scopes_upto(Seq::empty(), keys, keys.len() as int, true),
            keys,
            keys.len() as int,
            false,
        );
    }
    let n = keys.len() as int;
    let none: Seq<Option<u64>> = Seq::empty();
    let globals = scopes_upto(none, keys, n, true);
    let all = scopes_in_order(keys);
    lemma_scopes_upto(none, keys, n, true);
    lemma_scopes_upto(globals, keys, n, false);
    assert forall|i: int| 0 <= i < all.len() && #[trigger] all[i] is None implies i == 0 by {
        assert(all.contains(all[i]));
        assert(globals.contains(None));
        let k = choose|k: int| 0 <= k < globals.len() && globals[k] == None::<u64>;
        assert(all.subrange(0, globals.len() as int)[k] == globals[k]);
        assert(all[k] == all[i]);
        if globals.len() > 1 {
            assert(globals.contains(globals[0]) && globals.contains(globals[1]));
            assert(globals[0] is None && globals[1] is None);
        }
    }
}

/// The number of keys in a scope is positive if and only if some key lies in it.
pub proof fn lemma_count_in(keys: Seq<CommandKey>, bucket: Option<u64>, n: int)
    requires
        0 <= n <= keys.len(),
    ensures
        count_in(keys, bucket, n) <= n,
        count_in(keys, bucket, n) > 0 <==> exists|i: int|
            0 <= i < n && (#[trigger] keys[i]).0 == bucket,
    decreases n,
{
    if n > 0 {
        lemma_count_in(keys, bucket, n - 1);
        if keys[n - 1].0 == bucket {
        } else if count_in(keys, bucket, n) > 0 {
            let i = choose|i: int| 0 <= i < n - 1 && (#[trigger] keys[i]).0 == bucket;
            assert(0 <= i < n);
        }
    }
}

/// A batch holds one descriptor for each key of its scope.
pub proof fn lemma_descriptors_in<B: CommandBundle>(
    keys: Seq<CommandKey>,
    commands: Seq<B>,
    bucket: Option<u64>,
    n: int,
)
    ensures
        descriptors_in(keys, commands, bucket, n).len() == count_in(keys, bucket, n),
    decreases n,
{
    if n > 0 {
        lemma_descriptors_in(keys, commands, bucket, n - 1);
    }
}

} // verus!
