//! What the client is built from.

use std::collections::HashSet;

use vstd::prelude::*;
use vstd::string::StringExecFns;

use crate::config::BotConfig;

verus! {

broadcast use vstd::std_specs::hash::group_hash_axioms;

/// Where the two JSON files of the bot lie.
#[derive(Clone, Eq, PartialEq, Ord, PartialOrd, Hash, Debug, Default)]
pub struct JsonPaths {
    assets: String,
    embeds: String,
}

impl JsonPaths {
    /// Where the assets file lies.
    pub closed spec fn spec_assets(&self) -> Seq<char> {
        self.assets@
    }

    /// Where the embeds file lies.
    pub closed spec fn spec_embeds(&self) -> Seq<char> {
        self.embeds@
    }

    /// The two paths.
    pub fn new(assets: String, embeds: String) -> (paths: Self)
        ensures
            paths.spec_assets() == assets@,
            paths.spec_embeds() == embeds@,
    {
        Self { assets, embeds }
    }

    /// Where the assets file lies.
    pub fn assets(&self) -> (path: &str)
        ensures
            path@ == self.spec_assets(),
    {
        self.assets.as_str()
    }

    /// Where the embeds file lies.
    pub fn embeds(&self) -> (path: &str)
        ensures
            path@ == self.spec_embeds(),
    {
        self.embeds.as_str()
    }
}

/// What the client is built from, every choice made.
pub struct BotSettings {
    pub token: String,
    pub allow_dm: bool,
    pub ignore_bots: bool,
    pub prefix: String,
    pub owner_ids: HashSet<u64>,
    pub paths: JsonPaths,
}

/// The choices for a client, as far as they have been made.
pub struct BotBuilder {
    token: String,
    owner_ids: Option<HashSet<u64>>,
    allow_dm: Option<bool>,
    ignore_bots: Option<bool>,
    prefix: Option<String>,
    assets_file_path: Option<String>,
    embeds_file_path: Option<String>,
}

/// The choices of a builder as mathematical values.
pub struct Choices {
    pub token: Seq<char>,
    pub owner_ids: Option<Set<u64>>,
    pub allow_dm: Option<bool>,
    pub ignore_bots: Option<bool>,
    pub prefix: Option<Seq<char>>,
    pub assets_file_path: Option<Seq<char>>,
    pub embeds_file_path: Option<Seq<char>>,
}

/// The text of an optional string.
pub open spec fn text_of(text: Option<String>) -> Option<Seq<char>> {
    match text {
        Some(text) => Some(text@),
        None => None,
    }
}

/// The ids of a list, as a set.
pub open spec fn id_set(ids: Seq<u64>) -> Set<u64> {
    Set::new(|id: u64| ids.contains(id))
}

impl Choices {
    /// The owners after `ids` were added to them.
    pub open spec fn with_owners(self, ids: Seq<u64>) -> Choices {
        Choices {
            owner_ids: Some(
                match self.owner_ids {
                    Some(owners) => owners.union(id_set(ids)),
                    None => id_set(ids),
                },
            ),
            ..self
        }
    }

    /// The choices that `config` makes.
    pub open spec fn of_config(config: BotConfig) -> Choices {
        let made = Choices {
            token: config.token@,
            owner_ids: None,
            allow_dm: Some(config.allow_dm),
            ignore_bots: Some(!config.allow_dm),
            prefix: Some(config.prefix@),
            assets_file_path: Some(config.assets_file@),
            embeds_file_path: Some(config.embeds_file@),
        };
        match config.owner_ids {
            Some(ids) => made.with_owners(ids@),
            None => made,
        }
    }
}

impl View for BotBuilder {
    type V = Choices;

    closed spec fn view(&self) -> Choices {
        Choices {
            token: self.token@,
            owner_ids: match self.owner_ids {
                Some(owners) => Some(owners@),
                None => None,
            },
            allow_dm: self.allow_dm,
            ignore_bots: self.ignore_bots,
            prefix: text_of(self.prefix),
            assets_file_path: text_of(self.assets_file_path),
            embeds_file_path: text_of(self.embeds_file_path),
        }
    }
}

/// Puts every id of `ids` into `owners`.
fn insert_all(owners: &mut HashSet<u64>, ids: &Vec<u64>)
    ensures
        final(owners)@ == old(owners)@.union(id_set(ids@)),
{
    let mut i: usize = 0;
    while i < ids.len()
        invariant
            i <= ids.len(),
            owners@ == old(owners)@.union(id_set(ids@.take(i as int))),
        decreases ids.len() - i,
    {
        owners.insert(ids[i]);
        proof {
            let seen = ids@.take(i as int);
            let more = ids@.take(i + 1);
            assert(id_set(more) =~= id_set(seen).insert(ids@[i as int])) by {
                assert forall|id: u64| id_set(more).contains(id) <==> id_set(seen).insert(
                    ids@[i as int],
                ).contains(id) by {
                    if id == ids@[i as int] {
                        assert(more[seen.len() as int] == id);
                    }
                }
            }
        }
        i = i + 1;
    }
    proof {
        assert(ids@.take(ids.len() as int) =~= ids@);
    }
}

impl BotBuilder {
    /// A builder with the token `token` and no other choice made.
    pub fn new(token: String) -> (builder: Self)
        ensures
            builder@ == (Choices {
                token: token@,
                owner_ids: None,
                allow_dm: None,
                ignore_bots: None,
                prefix: None,
                assets_file_path: None,
                embeds_file_path: None,
            }),
    {
        Self {
            token,
            owner_ids: None,
            allow_dm: None,
            ignore_bots: None,
            prefix: None,
            assets_file_path: None,
            embeds_file_path: None,
        }
    }

    /// A builder with the choices of `config`. Bots are ignored exactly
    /// where direct messages are not allowed.
    pub fn from_config(config: BotConfig) -> (builder: Self)
        ensures
            builder@ == Choices::of_config(config),
    {
        let builder = Self::new(config.token).allow_dm(config.allow_dm).ignore_bots(
            !config.allow_dm,
        ).prefix(config.prefix).assets_file(config.assets_file).embeds_file(config.embeds_file);
        match config.owner_ids {
            Some(ids) => builder.owners(ids),
            None => builder,
        }
    }

    /// Adds `ids` to the owners.
    pub fn owners(self, ids: Vec<u64>) -> (builder: Self)
        ensures
            builder@ == self@.with_owners(ids@),
    {
        let mut builder = self;
        let mut owners = match builder.owner_ids {
            Some(owners) => owners,
            None => HashSet::with_capacity(1),
        };
        insert_all(&mut owners, &ids);
        proof {
            assert(Set::<u64>::empty().union(id_set(ids@)) =~= id_set(ids@));
        }
        builder.owner_ids = Some(owners);
        builder
    }

    /// Whether the bot answers direct messages.
    pub fn allow_dm(self, allow_dm: bool) -> (builder: Self)
        ensures
            builder@ == (Choices { allow_dm: Some(allow_dm), ..self@ }),
    {
        let mut builder = self;
        builder.allow_dm = Some(allow_dm);
        builder
    }

    /// Whether the bot ignores other bots.
    pub fn ignore_bots(self, ignore_bots: bool) -> (builder: Self)
        ensures
            builder@ == (Choices { ignore_bots: Some(ignore_bots), ..self@ }),
    {
        let mut builder = self;
        builder.ignore_bots = Some(ignore_bots);
        builder
    }

    /// What a command begins with.
    pub fn prefix(self, prefix: String) -> (builder: Self)
        ensures
            builder@ == (Choices { prefix: Some(prefix@), ..self@ }),
    {
        let mut builder = self;
        builder.prefix = Some(prefix);
        builder
    }

    /// Where the assets file lies.
    pub fn assets_file(self, path: String) -> (builder: Self)
        ensures
            builder@ == (Choices { assets_file_path: Some(path@), ..self@ }),
    {
        let mut builder = self;
        builder.assets_file_path = Some(path);
        builder
    }

    /// Where the embeds file lies.
    pub fn embeds_file(self, path: String) -> (builder: Self)
        ensures
            builder@ == (Choices { embeds_file_path: Some(path@), ..self@ }),
    {
        let mut builder = self;
        builder.embeds_file_path = Some(path);
        builder
    }

    /// The settings, with what was not chosen filled in: no direct
    /// messages, bots ignored, the prefix `!`, no owners, empty paths.
    pub fn build(self) -> (settings: BotSettings)
        ensures
            settings.token@ == self@.token,
            settings.allow_dm == match self@.allow_dm {
                Some(allow_dm) => allow_dm,
                None => false,
            },
            settings.ignore_bots == match self@.ignore_bots {
                Some(ignore_bots) => ignore_bots,
                None => true,
            },
            settings.prefix@ == match self@.prefix {
                Some(prefix) => prefix,
                None => "!"@,
            },
            settings.owner_ids@ == match self@.owner_ids {
                Some(owners) => owners,
                None => Set::<u64>::empty(),
            },
            settings.paths.spec_assets() == match self@.assets_file_path {
                Some(path) => path,
                None => Seq::<char>::empty(),
            },
            settings.paths.spec_embeds() == match self@.embeds_file_path {
                Some(path) => path,
                None => Seq::<char>::empty(),
            },
    {
        let allow_dm = match self.allow_dm {
            Some(allow_dm) => allow_dm,
            None => false,
        };
        let ignore_bots = match self.ignore_bots {
            Some(ignore_bots) => ignore_bots,
            None => true,
        };
        let prefix = match self.prefix {
            Some(prefix) => prefix,
            None => String::from_str("!"),
        };
        let owner_ids = match self.owner_ids {
            Some(owners) => owners,
            None => HashSet::new(),
        };
        let assets = match self.assets_file_path {
            Some(path) => path,
            None => String::new(),
        };
        let embeds = match self.embeds_file_path {
            Some(path) => path,
            None => String::new(),
        };
        BotSettings {
            token: self.token,
            allow_dm,
            ignore_bots,
            prefix,
            owner_ids,
            paths: JsonPaths::new(assets, embeds),
        }
    }
}

/// One entry of the emoji object of the assets file: its name, and its
/// value where that is a whole number that fits in a `u64`.
pub struct EmojiEntry {
    pub name: String,
    pub id: Option<u64>,
}

/// The entries of `entries` that have an id, in their order.
pub open spec fn emojis_with_id(entries: Seq<EmojiEntry>) -> Seq<(String, u64)>
    decreases entries.len(),
{
    if entries.len() == 0 {
        Seq::empty()
    } else {
        let front = emojis_with_id(entries.drop_last());
        match entries.last().id {
            Some(id) => front.push((entries.last().name, id)),
            None => front,
        }
    }
}

/// What is logged for an entry without an id.
pub open spec fn not_a_number_text(name: Seq<char>) -> Seq<char> {
    "[ERR] JSON field "@ + name + " is not a u64."@
}

/// What is logged for the entries of `entries` that have no id, in their
/// order.
pub open spec fn emoji_complaints(entries: Seq<EmojiEntry>) -> Seq<Seq<char>>
    decreases entries.len(),
{
    if entries.len() == 0 {
        Seq::empty()
    } else {
        let front = emoji_complaints(entries.drop_last());
        match entries.last().id {
            Some(_) => front,
            None => front.push(not_a_number_text(entries.last().name@)),
        }
    }
}

/// The texts of a list of strings.
pub open spec fn texts(lines: Seq<String>) -> Seq<Seq<char>> {
    Seq::new(lines.len(), |i: int| lines[i]@)
}

/// Sorts the entries of the emoji object: those with an id make up the
/// emoji map, in their order, and each of the others is complained of.
pub fn initialize_emoji_map(entries: Vec<EmojiEntry>) -> (sorted: (Vec<(String, u64)>, Vec<String>))
    ensures
        sorted.0@ == emojis_with_id(entries@),
        texts(sorted.1@) == emoji_complaints(entries@),
{
    let mut emojis: Vec<(String, u64)> = Vec::new();
    let mut complaints: Vec<String> = Vec::new();
    let mut i: usize = 0;
    while i < entries.len()
        invariant
            i <= entries.len(),
            emojis@ == emojis_with_id(entries@.take(i as int)),
            texts(complaints@) == emoji_complaints(entries@.take(i as int)),
        decreases entries.len() - i,
    {
        proof {
            assert(entries@.take(i + 1).drop_last() =~= entries@.take(i as int));
        }
        match entries[i].id {
            Some(id) => {
                emojis.push((entries[i].name.clone(), id));
            },
            None => {
                let mut line = String::from_str("[ERR] JSON field ");
                line.append(entries[i].name.as_str());
                line.append(" is not a u64.");
                complaints.push(line);
            },
        }
        i = i + 1;
    }
    proof {
        assert(entries@.take(entries.len() as int) =~= entries@);
    }
    (emojis, complaints)
}

} // verus!
