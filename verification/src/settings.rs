//! Per-guild settings: the catalog entry that a guild is bound to and its
//! command prefix.
//!
//! The store is an ordinary value. Whoever shares it between tasks guards
//! it with a lock and holds the lock for one operation at a time: every
//! operation here takes the store by reference, runs to completion without
//! waiting on anything, and so is one atomic step of any interleaving.

use std::collections::HashMap;
use vstd::prelude::*;

verus! {

/// The settings of one guild.
pub struct Settings {
    pub game: Option<u32>,
    pub prefix: Option<String>,
}

/// What a `Settings` value stands for.
pub ghost struct SettingsModel {
    pub game: Option<u32>,
    pub prefix: Option<Seq<char>>,
}

impl SettingsModel {
    /// The settings of a guild that nothing was ever written for.
    pub open spec fn unset() -> SettingsModel {
        SettingsModel { game: None, prefix: None }
    }
}

/// The characters of an optional string.
pub open spec fn text_of(text: Option<String>) -> Option<Seq<char>> {
    match text {
        Some(t) => Some(t@),
        None => None,
    }
}

impl View for Settings {
    type V = SettingsModel;

    open spec fn view(&self) -> SettingsModel {
        SettingsModel { game: self.game, prefix: text_of(self.prefix) }
    }
}

impl Default for Settings {
    fn default() -> (settings: Settings)
        ensures
            settings@ == SettingsModel::unset(),
    {
        Settings { game: None, prefix: None }
    }
}

/// The settings of `guild` in `guilds`. A guild without an entry has the
/// unset settings: a missing entry and an entry with both fields unset
/// read the same.
pub open spec fn settings_of(guilds: Map<u64, SettingsModel>, guild: u64) -> SettingsModel {
    if guilds.contains_key(guild) {
        guilds[guild]
    } else {
        SettingsModel::unset()
    }
}

/// The catalog entry that `guild` is bound to, if any.
pub open spec fn game_of(guilds: Map<u64, SettingsModel>, guild: u64) -> Option<u32> {
    settings_of(guilds, guild).game
}

/// The custom prefix of `guild`, if any.
pub open spec fn prefix_of(guilds: Map<u64, SettingsModel>, guild: u64) -> Option<Seq<char>> {
    settings_of(guilds, guild).prefix
}

/// `guilds` after `guild` was bound to `game`: the guild's entry exists,
/// holds the new binding and keeps its prefix; no other entry changes.
pub open spec fn with_game(guilds: Map<u64, SettingsModel>, guild: u64, game: u32) -> Map<
    u64,
    SettingsModel,
> {
    guilds.insert(
        guild,
        SettingsModel { game: Some(game), prefix: settings_of(guilds, guild).prefix },
    )
}

/// `guilds` after the prefix of `guild` was set, or cleared with `None`:
/// the guild's entry exists, holds the new prefix and keeps its binding;
/// no other entry changes.
pub open spec fn with_prefix(
    guilds: Map<u64, SettingsModel>,
    guild: u64,
    prefix: Option<Seq<char>>,
) -> Map<u64, SettingsModel> {
    guilds.insert(guild, SettingsModel { game: settings_of(guilds, guild).game, prefix })
}

/// The settings of every guild that was ever configured, by guild id.
pub struct SettingsMap {
    guilds: HashMap<u64, Settings>,
}

impl View for SettingsMap {
    type V = Map<u64, SettingsModel>;

    closed spec fn view(&self) -> Map<u64, SettingsModel> {
        self.guilds@.map_values(|s: Settings| s@)
    }
}

impl SettingsMap {
    /// A store without any entry. A store always starts like this:
    /// nothing is loaded into it when it is made, and an entry comes to be
    /// with the first write for its guild.
    pub fn new() -> (store: SettingsMap)
        ensures
            store@ == Map::<u64, SettingsModel>::empty(),
    {
        let store = SettingsMap { guilds: HashMap::new() };
        assert(store@ =~= Map::<u64, SettingsModel>::empty());
        store
    }

    /// Takes the entry of `guild` out of the store, or makes an unset one
    /// where the store has none.
    fn take(&mut self, guild: u64) -> (entry: Settings)
        ensures
            entry@ == settings_of(old(self)@, guild),
            final(self)@ == old(self)@.remove(guild),
    {
        broadcast use vstd::std_specs::hash::group_hash_axioms;

        let found = self.guilds.remove(&guild);
        assert(final(self)@ =~= old(self)@.remove(guild));
        match found {
            Some(entry) => entry,
            None => Settings::default(),
        }
    }

    /// Puts `entry` in the store as the settings of `guild`.
    fn put(&mut self, guild: u64, entry: Settings)
        ensures
            final(self)@ == old(self)@.insert(guild, entry@),
    {
        broadcast use vstd::std_specs::hash::group_hash_axioms;

        self.guilds.insert(guild, entry);
        assert(final(self)@ =~= old(self)@.insert(guild, entry@));
    }
}

impl Settings {
    /// The catalog entry that `guild` is bound to. A guild that the store
    /// does not know is no error: it is bound to nothing.
    pub fn game(store: &SettingsMap, guild: u64) -> (game: Option<u32>)
        ensures
            game == game_of(store@, guild),
    {
        broadcast use vstd::std_specs::hash::group_hash_axioms;

        match store.guilds.get(&guild) {
            Some(entry) => entry.game,
            None => None,
        }
    }

    /// Binds `guild` to `game`, making the guild's entry where there is
    /// none and leaving its prefix as it was.
    pub fn set_game(store: &mut SettingsMap, guild: u64, game: u32)
        ensures
            final(store)@ == with_game(old(store)@, guild, game),
    {
        let mut entry = store.take(guild);
        entry.game = Some(game);
        store.put(guild, entry);
        assert(final(store)@ =~= with_game(old(store)@, guild, game));
    }

    /// The custom prefix of the guild that a message came from. A message
    /// from outside any guild, and one from a guild that the store does
    /// not know, has none.
    pub fn prefix(store: &SettingsMap, guild: Option<u64>) -> (prefix: Option<String>)
        ensures
            text_of(prefix) == match guild {
                Some(id) => prefix_of(store@, id),
                None => None,
            },
    {
        broadcast use vstd::std_specs::hash::group_hash_axioms;

        match guild {
            Some(id) => match store.guilds.get(&id) {
                Some(entry) => match &entry.prefix {
                    Some(prefix) => Some(prefix.clone()),
                    None => None,
                },
                None => None,
            },
            None => None,
        }
    }

    /// Sets the prefix of `guild`, or clears it with `None`, making the
    /// guild's entry where there is none and leaving its binding as it was.
    pub fn set_prefix(store: &mut SettingsMap, guild: u64, prefix: Option<String>)
        ensures
            final(store)@ == with_prefix(old(store)@, guild, text_of(prefix)),
    {
        let mut entry = store.take(guild);
        entry.prefix = prefix;
        store.put(guild, entry);
        assert(final(store)@ =~= with_prefix(old(store)@, guild, text_of(prefix)));
    }
}

/// One write to the store.
pub ghost enum Write {
    Game { guild: u64, game: u32 },
    Prefix { guild: u64, prefix: Option<Seq<char>> },
}

impl Write {
    /// The guild that the write is for.
    pub open spec fn guild(self) -> u64 {
        match self {
            Write::Game { guild, .. } => guild,
            Write::Prefix { guild, .. } => guild,
        }
    }

    /// `guilds` after the write.
    pub open spec fn apply(self, guilds: Map<u64, SettingsModel>) -> Map<u64, SettingsModel> {
        match self {
            Write::Game { guild, game } => with_game(guilds, guild, game),
            Write::Prefix { guild, prefix } => with_prefix(guilds, guild, prefix),
        }
    }

    /// The write can be read back from `guilds`.
    pub open spec fn visible_in(self, guilds: Map<u64, SettingsModel>) -> bool {
        match self {
            Write::Game { guild, game } => game_of(guilds, guild) == Some(game),
            Write::Prefix { guild, prefix } => prefix_of(guilds, guild) == prefix,
        }
    }
}

/// `guilds` after the writes of `writes`, one after the other. Since every
/// operation on a shared store is one atomic step, each way in which
/// concurrent writers can interleave is one such sequence.
pub open spec fn apply_all(guilds: Map<u64, SettingsModel>, writes: Seq<Write>) -> Map<
    u64,
    SettingsModel,
>
    decreases writes.len(),
{
    if writes.len() == 0 {
        guilds
    } else {
        writes.last().apply(apply_all(guilds, writes.drop_last()))
    }
}

/// No write of `writes` is for `guild`.
pub open spec fn untouched(writes: Seq<Write>, guild: u64) -> bool {
    forall|i: int| 0 <= i < writes.len() ==> (#[trigger] writes[i]).guild() != guild
}

/// No two writes of `writes` are for the same guild.
pub open spec fn distinct_guilds(writes: Seq<Write>) -> bool {
    forall|i: int, j: int|
        0 <= i < j < writes.len() ==> (#[trigger] writes[i]).guild() != (#[trigger] writes[j]).guild()
}

/// Writes for other guilds leave the settings of a guild as they were.
pub proof fn lemma_other_guilds_frame(guilds: Map<u64, SettingsModel>, writes: Seq<Write>, guild: u64)
    requires
        untouched(writes, guild),
    ensures
        settings_of(apply_all(guilds, writes), guild) == settings_of(guilds, guild),
    decreases writes.len(),
{
    if writes.len() > 0 {
        let earlier = writes.drop_last();
        assert(writes.last() == writes[writes.len() - 1]);
        assert forall|i: int| 0 <= i < earlier.len() implies (#[trigger] earlier[i]).guild()
            != guild by {
            assert(earlier[i] == writes[i]);
        }
        lemma_other_guilds_frame(guilds, earlier, guild);
    }
}

/// A guild that was never written has no binding and no prefix, whatever
/// was written for other guilds since the store was made.
pub proof fn lemma_unwritten_guild_is_unset(writes: Seq<Write>, guild: u64)
    requires
        untouched(writes, guild),
    ensures
        game_of(apply_all(Map::empty(), writes), guild) == None::<u32>,
        prefix_of(apply_all(Map::empty(), writes), guild) == None::<Seq<char>>,
{
    lemma_other_guilds_frame(Map::empty(), writes, guild);
}

/// After a guild was bound to a game, that game is what is read for it,
/// whatever is written for other guilds in between; and the guild's
/// prefix is as it was before.
pub proof fn lemma_binding_is_read_back(
    guilds: Map<u64, SettingsModel>,
    guild: u64,
    game: u32,
    others: Seq<Write>,
)
    requires
        untouched(others, guild),
    ensures
        game_of(apply_all(with_game(guilds, guild, game), others), guild) == Some(game),
        prefix_of(apply_all(with_game(guilds, guild, game), others), guild) == prefix_of(
            guilds,
            guild,
        ),
{
    lemma_other_guilds_frame(with_game(guilds, guild, game), others, guild);
}

/// After a guild's prefix was set, that prefix is what is read for it,
/// whatever is written for other guilds in between; and the guild's
/// binding is as it was before.
pub proof fn lemma_prefix_is_read_back(
    guilds: Map<u64, SettingsModel>,
    guild: u64,
    prefix: Option<Seq<char>>,
    others: Seq<Write>,
)
    requires
        untouched(others, guild),
    ensures
        prefix_of(apply_all(with_prefix(guilds, guild, prefix), others), guild) == prefix,
        game_of(apply_all(with_prefix(guilds, guild, prefix), others), guild) == game_of(
            guilds,
            guild,
        ),
{
    lemma_other_guilds_frame(with_prefix(guilds, guild, prefix), others, guild);
}

/// Clearing a prefix that was set before leaves the guild without one.
pub proof fn lemma_cleared_prefix_is_gone(
    guilds: Map<u64, SettingsModel>,
    guild: u64,
    prefix: Seq<char>,
)
    ensures
        prefix_of(with_prefix(with_prefix(guilds, guild, Some(prefix)), guild, None), guild)
            == None::<Seq<char>>,
{
}

/// Writes for distinct guilds lose nothing: after all of them, in whatever
/// order they ran, each one can be read back.
pub proof fn lemma_distinct_writes_all_visible(guilds: Map<u64, SettingsModel>, writes: Seq<Write>)
    requires
        distinct_guilds(writes),
    ensures
        forall|i: int|
            0 <= i < writes.len() ==> (#[trigger] writes[i]).visible_in(apply_all(guilds, writes)),
    decreases writes.len(),
{
    if writes.len() > 0 {
        let earlier = writes.drop_last();
        let last = writes.last();
        let before = apply_all(guilds, earlier);
        assert(last == writes[writes.len() - 1]);
        assert forall|i: int, j: int| 0 <= i < j < earlier.len() implies (#[trigger] earlier[i]).guild()
            != (#[trigger] earlier[j]).guild() by {
            assert(earlier[i] == writes[i] && earlier[j] == writes[j]);
        }
        lemma_distinct_writes_all_visible(guilds, earlier);
        assert forall|i: int| 0 <= i < writes.len() implies (#[trigger] writes[i]).visible_in(
            apply_all(guilds, writes),
        ) by {
            if i < writes.len() - 1 {
                assert(writes[i] == earlier[i]);
                assert(earlier[i].visible_in(before));
                assert(writes[i].guild() != last.guild());
                assert(settings_of(last.apply(before), writes[i].guild()) == settings_of(
                    before,
                    writes[i].guild(),
                ));
            }
        }
    }
}

} // verus!
