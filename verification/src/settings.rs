//! The remembered settings: a table from key to value, as the settings store
//! hands it out and takes it back. The orchestration reads remembered choices
//! from it and writes each successful switch into it.

use vstd::prelude::*;
use crate::text::{opt_view, str_eq};

verus! {

/// Key under which the id of the active provider is remembered.
pub const KEY_MODE: &'static str = "transcription_mode";

/// Key under which the endpoint of the custom remote provider is remembered.
pub const KEY_CUSTOM_URL: &'static str = "api_custom_url";

/// Key under which the key of the custom remote provider is remembered.
pub const KEY_CUSTOM_KEY: &'static str = "api_custom_key";

/// Key under which the model of the custom remote provider is remembered.
pub const KEY_CUSTOM_MODEL: &'static str = "api_custom_model";

/// What the key of a remembered per-provider API key starts with; the
/// provider's id follows.
pub const KEY_PROVIDER_KEY_PREFIX: &'static str = "api_key_";

/// The value that the rows hold for `key`: that of the last row with that key.
pub open spec fn lookup(rows: Seq<(Seq<char>, Seq<char>)>, key: Seq<char>) -> Option<Seq<char>>
    decreases rows.len(),
{
    if rows.len() == 0 {
        None
    } else if rows.last().0 == key {
        Some(rows.last().1)
    } else {
        lookup(rows.drop_last(), key)
    }
}

/// The value that a table holds for `key`, if it holds one.
pub open spec fn setting(table: Map<Seq<char>, Seq<char>>, key: Seq<char>) -> Option<Seq<char>> {
    if table.contains_key(key) {
        Some(table[key])
    } else {
        None
    }
}

/// The key under which the API key of the provider `id` is remembered.
pub open spec fn provider_key_name(id: Seq<char>) -> Seq<char> {
    KEY_PROVIDER_KEY_PREFIX@ + id
}

/// A table of remembered settings.
pub struct Settings {
    entries: Vec<(String, String)>,
}

impl View for Settings {
    type V = Map<Seq<char>, Seq<char>>;

    closed spec fn view(&self) -> Map<Seq<char>, Seq<char>> {
        Map::new(
            |k: Seq<char>| lookup(self.rows(), k) is Some,
            |k: Seq<char>| lookup(self.rows(), k)->0,
        )
    }
}

proof fn lemma_lookup_after_overwrite(
    rows: Seq<(Seq<char>, Seq<char>)>,
    at: int,
    key: Seq<char>,
    value: Seq<char>,
    other: Seq<char>,
)
    requires
        0 <= at < rows.len(),
        rows[at].0 == key,
        forall|j: int| at < j < rows.len() ==> rows[j].0 != key,
    ensures
        lookup(rows.update(at, (key, value)), other) == (if other == key {
            Some(value)
        } else {
            lookup(rows, other)
        }),
    decreases rows.len(),
{
    let changed = rows.update(at, (key, value));
    if at == rows.len() - 1 {
        assert(changed.drop_last() =~= rows.drop_last());
    } else {
        assert(changed.drop_last() =~= rows.drop_last().update(at, (key, value)));
        lemma_lookup_after_overwrite(rows.drop_last(), at, key, value, other);
    }
}

proof fn lemma_lookup_absent(rows: Seq<(Seq<char>, Seq<char>)>, key: Seq<char>)
    requires
        forall|j: int| 0 <= j < rows.len() ==> rows[j].0 != key,
    ensures
        lookup(rows, key) is None,
    decreases rows.len(),
{
    if rows.len() > 0 {
        lemma_lookup_absent(rows.drop_last(), key);
    }
}

proof fn lemma_lookup_last_match(rows: Seq<(Seq<char>, Seq<char>)>, at: int, key: Seq<char>)
    requires
        0 <= at < rows.len(),
        rows[at].0 == key,
        forall|j: int| at < j < rows.len() ==> rows[j].0 != key,
    ensures
        lookup(rows, key) == Some(rows[at].1),
    decreases rows.len(),
{
    if at < rows.len() - 1 {
        lemma_lookup_last_match(rows.drop_last(), at, key);
    }
}

impl Settings {
    /// The rows of the table, oldest first, as plain texts.
    pub closed spec fn rows(&self) -> Seq<(Seq<char>, Seq<char>)> {
        Seq::new(self.entries@.len(), |i: int| (self.entries@[i].0@, self.entries@[i].1@))
    }

    /// A table that remembers nothing.
    pub fn new() -> (table: Settings)
        ensures
            table@ == Map::<Seq<char>, Seq<char>>::empty(),
    {
        let table = Settings { entries: Vec::new() };
        assert(table@ =~= Map::<Seq<char>, Seq<char>>::empty());
        table
    }

    /// The place of the last row that carries `key`.
    fn last_row_with(&self, key: &str) -> (place: Option<usize>)
        ensures
            match place {
                Some(i) => i < self.rows().len() && self.rows()[i as int].0 == key@ && lookup(
                    self.rows(),
                    key@,
                ) == Some(self.rows()[i as int].1) && forall|j: int|
                    i < j < self.rows().len() ==> self.rows()[j].0 != key@,
                None => lookup(self.rows(), key@) is None,
            },
    {
        let mut i: usize = self.entries.len();
        while i > 0
            invariant
                i <= self.entries.len(),
                forall|j: int| i <= j < self.rows().len() ==> self.rows()[j].0 != key@,
            decreases i,
        {
            i -= 1;
            if str_eq(self.entries[i].0.as_str(), key) {
                proof {
                    lemma_lookup_last_match(self.rows(), i as int, key@);
                }
                return Some(i);
            }
        }
        proof {
            lemma_lookup_absent(self.rows(), key@);
        }
        None
    }

    /// The value remembered under `key`, if there is one.
    pub fn get_setting(&self, key: &str) -> (value: Option<String>)
        ensures
            opt_view(value) == setting(self@, key@),
    {
        match self.last_row_with(key) {
            Some(i) => Some(self.entries[i].1.clone()),
            None => None,
        }
    }

    /// Remembers `value` under `key`, in place of what was remembered there.
    pub fn set_setting(&mut self, key: &str, value: &str)
        ensures
            final(self)@ == old(self)@.insert(key@, value@),
    {
        let ghost before = self.rows();
        let row = (key.to_owned(), value.to_owned());
        match self.last_row_with(key) {
            Some(i) => {
                self.entries.set(i, row);
                proof {
                    assert(self.rows() =~= before.update(i as int, (key@, value@)));
                    assert forall|k: Seq<char>| lookup(self.rows(), k) == (if k == key@ {
                        Some(value@)
                    } else {
                        lookup(before, k)
                    }) by {
                        lemma_lookup_after_overwrite(before, i as int, key@, value@, k);
                    }
                }
            },
            None => {
                self.entries.push(row);
                proof {
                    assert(self.rows() =~= before.push((key@, value@)));
                    assert(self.rows().drop_last() =~= before);
                }
            },
        }
        assert(self@ =~= old(self)@.insert(key@, value@));
    }
}

} // verus!
