//! The registry of games and installed mods, with the integrity rules the
//! synchronization engine relies on: one entry per mod identifier, and a
//! timestamp that always reflects the content currently on disk.

use vstd::prelude::*;
use vstd::string::StrSliceExecFns;

verus! {

/// One installed modification, as the registry records it.
pub struct Mod {
    /// Display name; refreshed on every successful metadata fetch.
    pub title: String,
    /// Identifier assigned by the remote catalog, immutable once created.
    pub id: u64,
    /// Unix timestamp of the remote revision currently installed on disk.
    pub time_updated: u64,
}

/// The mathematical value of a registry entry.
pub struct ModModel {
    pub title: Seq<char>,
    pub id: u64,
    pub time_updated: u64,
}

impl View for Mod {
    type V = ModModel;

    open spec fn view(&self) -> ModModel {
        ModModel { title: self.title@, id: self.id, time_updated: self.time_updated }
    }
}

impl DeepView for Mod {
    type V = ModModel;

    open spec fn deep_view(&self) -> ModModel {
        self@
    }
}

/// A configured game: a display name, the directory its mods live in, and
/// the mods installed for it.
pub struct Game {
    /// User-facing name of the game.
    pub title: String,
    /// Directory where mod folders and manifest files live.
    pub path_mods: String,
    /// The installed mods, one entry per identifier.
    pub mods: Vec<Mod>,
}

/// The persisted registry: every configured game, in display order.
pub struct Config {
    /// All configured games.
    pub games: Vec<Game>,
}

/// No two entries share an identifier.
pub open spec fn ids_unique(mods: Seq<ModModel>) -> bool {
    forall|i: int, j: int| 0 <= i < j < mods.len() ==> mods[i].id != mods[j].id
}

/// Some entry carries this identifier.
pub open spec fn has_mod(mods: Seq<ModModel>, id: u64) -> bool {
    exists|i: int| 0 <= i < mods.len() && mods[i].id == id
}

/// The position of the entry with this identifier.
pub open spec fn index_of_mod(mods: Seq<ModModel>, id: u64) -> int {
    choose|i: int| 0 <= i < mods.len() && mods[i].id == id
}

/// The entry with this identifier.
pub open spec fn mod_entry(mods: Seq<ModModel>, id: u64) -> ModModel
    recommends
        has_mod(mods, id),
{
    mods[index_of_mod(mods, id)]
}

/// The registry after recording a successful install or update: the entry for
/// `id` carries the fetched title and timestamp; an entry that already existed
/// keeps its position, a new one is appended; no other entry moves or changes.
pub open spec fn upsert_spec(mods: Seq<ModModel>, id: u64, title: Seq<char>, time: u64) -> Seq<
    ModModel,
> {
    let entry = ModModel { title, id, time_updated: time };
    if has_mod(mods, id) {
        mods.update(index_of_mod(mods, id), entry)
    } else {
        mods.push(entry)
    }
}

/// The registry after an explicit delete of `id`: the entry is gone, every
/// other entry keeps its relative order.
pub open spec fn remove_spec(mods: Seq<ModModel>, id: u64) -> Seq<ModModel> {
    if has_mod(mods, id) {
        mods.remove(index_of_mod(mods, id))
    } else {
        mods
    }
}

impl Game {
    /// The integrity rule of one game's mod list.
    pub open spec fn wf(&self) -> bool {
        ids_unique(self.mods.deep_view())
    }

    /// Looks up the entry for `id`.
    pub fn find_mod(&self, id: u64) -> (r: Option<usize>)
        ensures
            match r {
                Some(i) => i < self.mods.deep_view().len() && self.mods.deep_view()[i as int].id
                    == id,
                None => !has_mod(self.mods.deep_view(), id),
            },
    {
        let n = self.mods.len();
        let mut i: usize = 0;
        while i < n
            invariant
                i <= n,
                n == self.mods.deep_view().len(),
                forall|k: int| 0 <= k < i ==> self.mods.deep_view()[k].id != id,
            decreases n - i,
        {
            if self.mods[i].id == id {
                return Some(i);
            }
            i = i + 1;
        }
        None
    }

    /// The recorded timestamp for `id`, if installed.
    pub fn installed_time(&self, id: u64) -> (r: Option<u64>)
        requires
            self.wf(),
        ensures
            r is Some <==> has_mod(self.mods.deep_view(), id),
            r is Some ==> r->0 == mod_entry(self.mods.deep_view(), id).time_updated,
    {
        match self.find_mod(id) {
            Some(i) => {
                proof {
                    lemma_found_is_indexed(self.mods.deep_view(), id, i as int);
                }
                Some(self.mods[i].time_updated)
            },
            None => None,
        }
    }

    /// Records a confirmed successful install or update of `id`.
    ///
    /// Called only after the archive installer has completed, so the registry
    /// never claims a mod whose install did not finish.
    pub fn upsert_mod(&mut self, id: u64, title: &String, time: u64)
        requires
            old(self).wf(),
        ensures
            final(self).wf(),
            final(self).mods.deep_view() == upsert_spec(old(self).mods.deep_view(), id, title@, time),
            final(self).title == old(self).title,
            final(self).path_mods == old(self).path_mods,
    {
        let ghost prior = self.mods.deep_view();
        let entry = Mod { title: title.clone(), id, time_updated: time };
        match self.find_mod(id) {
            Some(i) => {
                proof {
                    lemma_found_is_indexed(prior, id, i as int);
                }
                self.mods.set(i, entry);
                proof {
                    assert(final(self).mods.deep_view() =~= upsert_spec(prior, id, title@, time));
                    lemma_upsert_unique(prior, id, title@, time);
                }
            },
            None => {
                self.mods.push(entry);
                proof {
                    assert(final(self).mods.deep_view() =~= upsert_spec(prior, id, title@, time));
                    lemma_upsert_unique(prior, id, title@, time);
                }
            },
        }
    }

    /// Removes the registry entry for `id`, as part of an explicit delete.
    ///
    /// The caller removes the mod directory and manifest file together with
    /// this entry; there is no implicit deletion path.
    pub fn remove_mod(&mut self, id: u64) -> (r: bool)
        requires
            old(self).wf(),
        ensures
            final(self).wf(),
            r == has_mod(old(self).mods.deep_view(), id),
            final(self).mods.deep_view() == remove_spec(old(self).mods.deep_view(), id),
            final(self).title == old(self).title,
            final(self).path_mods == old(self).path_mods,
    {
        let ghost prior = self.mods.deep_view();
        match self.find_mod(id) {
            Some(i) => {
                proof {
                    lemma_found_is_indexed(prior, id, i as int);
                }
                self.mods.remove(i);
                proof {
                    assert(final(self).mods.deep_view() =~= remove_spec(prior, id));
                    lemma_remove_unique(prior, id);
                }
                true
            },
            None => false,
        }
    }
}

impl Game {
    /// Renames the game; its mods and their location stay as they are.
    pub fn set_title(&mut self, title: String)
        ensures
            final(self).title == title,
            final(self).path_mods == old(self).path_mods,
            final(self).mods@ == old(self).mods@,
    {
        self.title = title;
    }

    /// Points the game at another mods root; its entries stay as they are.
    pub fn set_path_mods(&mut self, path_mods: String)
        ensures
            final(self).path_mods == path_mods,
            final(self).title == old(self).title,
            final(self).mods@ == old(self).mods@,
    {
        self.path_mods = path_mods;
    }
}

/// The policy bound on a game's name: at most 30 characters.
pub fn title_within_limit(s: &str) -> (r: bool)
    ensures
        r == (s@.len() <= 30),
{
    s.unicode_len() <= 30
}

/// Under uniqueness, any position holding `id` is the indexed one.
proof fn lemma_found_is_indexed(mods: Seq<ModModel>, id: u64, i: int)
    requires
        ids_unique(mods),
        0 <= i < mods.len(),
        mods[i].id == id,
    ensures
        has_mod(mods, id),
        index_of_mod(mods, id) == i,
{
    assert(has_mod(mods, id));
    let j = index_of_mod(mods, id);
    if i < j {
        assert(mods[i].id != mods[j].id);
    } else if j < i {
        assert(mods[j].id != mods[i].id);
    }
}

/// Recording an install keeps identifiers unique.
pub proof fn lemma_upsert_unique(mods: Seq<ModModel>, id: u64, title: Seq<char>, time: u64)
    requires
        ids_unique(mods),
    ensures
        ids_unique(upsert_spec(mods, id, title, time)),
{
    if !has_mod(mods, id) {
        let r = mods.push(ModModel { title, id, time_updated: time });
        assert forall|i: int, j: int| 0 <= i < j < r.len() implies r[i].id != r[j].id by {
            if j == mods.len() {
                assert(r[i] == mods[i]);
            }
        }
    }
}

/// Deleting an entry keeps identifiers unique.
pub proof fn lemma_remove_unique(mods: Seq<ModModel>, id: u64)
    requires
        ids_unique(mods),
    ensures
        ids_unique(remove_spec(mods, id)),
{
}

/// Law: recording an install touches exactly the entry of its own
/// identifier: that entry carries the recorded title and timestamp, every
/// other entry keeps its place and value, and the count grows only when the
/// identifier was new.
pub proof fn lemma_upsert_entry(mods: Seq<ModModel>, id: u64, title: Seq<char>, time: u64)
    requires
        ids_unique(mods),
    ensures
        has_mod(upsert_spec(mods, id, title, time), id),
        mod_entry(upsert_spec(mods, id, title, time), id) == (ModModel {
            title,
            id,
            time_updated: time,
        }),
        upsert_spec(mods, id, title, time).len() == if has_mod(mods, id) {
            mods.len()
        } else {
            mods.len() + 1
        },
        forall|j: int|
            0 <= j < mods.len() && mods[j].id != id ==> upsert_spec(mods, id, title, time)[j]
                == mods[j],
{
    let once = upsert_spec(mods, id, title, time);
    let entry = ModModel { title, id, time_updated: time };
    lemma_upsert_unique(mods, id, title, time);
    if has_mod(mods, id) {
        let i = index_of_mod(mods, id);
        assert(once[i] == entry);
        lemma_found_is_indexed(once, id, i);
    } else {
        let i = mods.len() as int;
        assert(once[i] == entry);
        lemma_found_is_indexed(once, id, i);
    }
}

/// Law: recording the same install twice leaves the registry exactly as
/// recording it once does — one entry for the identifier, no duplicate.
pub proof fn lemma_upsert_idempotent(mods: Seq<ModModel>, id: u64, title: Seq<char>, time: u64)
    requires
        ids_unique(mods),
    ensures
        upsert_spec(upsert_spec(mods, id, title, time), id, title, time) == upsert_spec(
            mods,
            id,
            title,
            time,
        ),
{
    let once = upsert_spec(mods, id, title, time);
    let entry = ModModel { title, id, time_updated: time };
    lemma_upsert_unique(mods, id, title, time);
    if has_mod(mods, id) {
        let i = index_of_mod(mods, id);
        assert(once[i] == entry);
        lemma_found_is_indexed(once, id, i);
        assert(once.update(i, entry) =~= once);
    } else {
        let i = mods.len() as int;
        assert(once[i] == entry);
        lemma_found_is_indexed(once, id, i);
        assert(once.update(i, entry) =~= once);
    }
}

impl Config {
    /// The integrity rule of the whole registry.
    pub open spec fn wf(&self) -> bool {
        forall|i: int| 0 <= i < self.games@.len() ==> self.games@[i].wf()
    }

    /// A registry with no games yet: the bootstrap content.
    pub fn empty() -> (r: Config)
        ensures
            r.games@.len() == 0,
            r.wf(),
    {
        Config { games: Vec::new() }
    }

    /// Appends a newly configured game with no mods.
    pub fn add_game(&mut self, title: String, path_mods: String)
        requires
            old(self).wf(),
        ensures
            final(self).wf(),
            final(self).games@.len() == old(self).games@.len() + 1,
            forall|i: int|
                0 <= i < old(self).games@.len() ==> final(self).games@[i] == old(self).games@[i],
            final(self).games@.last().title == title,
            final(self).games@.last().path_mods == path_mods,
            final(self).games@.last().mods@.len() == 0,
    {
        self.games.push(Game { title, path_mods, mods: Vec::new() });
    }

    /// Removes one configured game; the games after it move up one place.
    pub fn remove_game(&mut self, index: usize)
        requires
            old(self).wf(),
            index < old(self).games@.len(),
        ensures
            final(self).wf(),
            final(self).games@ == old(self).games@.remove(index as int),
    {
        self.games.remove(index);
    }
}

} // verus!
