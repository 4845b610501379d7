use vstd::prelude::*;
use crate::text::{str_contains_char, str_eq};

verus! {

/// A value of a column record, as far as lead extraction reads it: text, or
/// any other kind of value (a number, a list, an object, null).
#[derive(Debug, Clone, PartialEq, Eq)]
pub enum CellValue {
    Text(String),
    Other,
}

/// One column-value record of an item: key/value pairs of a dynamic schema.
/// A record read from a JSON object has distinct keys
/// ([`ColumnValue::has_distinct_keys`]); where one repeats anyway, its first
/// entry counts.
#[derive(Debug, Clone, PartialEq, Eq)]
pub struct ColumnValue {
    pub entries: Vec<(String, CellValue)>,
}

/// One record of an items page.
#[derive(Debug, Clone, PartialEq, Eq)]
pub struct Item {
    pub name: Option<String>,
    pub id: Option<String>,
    pub column_values: Option<Vec<ColumnValue>>,
}

/// A page of records from the upstream record store.
#[derive(Debug, Clone, PartialEq, Eq)]
pub struct ItemsPage {
    pub items: Vec<Item>,
}

/// The value of the first entry whose key is `key`.
pub open spec fn lookup(entries: Seq<(String, CellValue)>, key: Seq<char>) -> Option<CellValue>
    decreases entries.len(),
{
    if entries.len() == 0 {
        None
    } else if entries[0].0@ == key {
        Some(entries[0].1)
    } else {
        lookup(entries.drop_first(), key)
    }
}

impl ColumnValue {
    /// No two entries share a key, as in a JSON object.
    pub open spec fn has_distinct_keys(self) -> bool {
        forall|i: int, j: int|
            0 <= i < j < self.entries@.len() ==> #[trigger] self.entries@[i].0@
                != #[trigger] self.entries@[j].0@
    }
}

/// With distinct keys, looking up the key of any entry gives that entry's
/// value.
pub proof fn lemma_lookup_distinct(entries: Seq<(String, CellValue)>, i: int)
    requires
        0 <= i < entries.len(),
        forall|a: int, b: int|
            0 <= a < b < entries.len() ==> #[trigger] entries[a].0@ != #[trigger] entries[b].0@,
    ensures
        lookup(entries, entries[i].0@) == Some(entries[i].1),
    decreases entries.len(),
{
    if i > 0 {
        let rest = entries.drop_first();
        assert(entries[0].0@ != entries[i].0@);
        assert(rest[i - 1] == entries[i]);
        assert forall|a: int, b: int|
            0 <= a < b < rest.len() implies #[trigger] rest[a].0@ != #[trigger] rest[b].0@ by {
            assert(rest[a] == entries[a + 1]);
            assert(rest[b] == entries[b + 1]);
        }
        lemma_lookup_distinct(rest, i - 1);
    }
}

/// The `"text"` of a column when it is text holding the digit `1`.
pub open spec fn phone_candidate(c: ColumnValue) -> Option<Seq<char>> {
    match lookup(c.entries@, "text"@) {
        Some(CellValue::Text(t)) => if t@.contains('1') {
            Some(t@)
        } else {
            None
        },
        _ => None,
    }
}

/// The text of the first column that is a phone candidate.
pub open spec fn phone_text(cols: Seq<ColumnValue>) -> Option<Seq<char>>
    decreases cols.len(),
{
    if cols.len() == 0 {
        None
    } else {
        match phone_candidate(cols[0]) {
            Some(t) => Some(t),
            None => phone_text(cols.drop_first()),
        }
    }
}

impl ColumnValue {
    /// The value of the first entry whose key is `key`.
    pub fn get(&self, key: &str) -> (r: Option<&CellValue>)
        ensures
            match r {
                Some(v) => lookup(self.entries@, key@) == Some(*v),
                None => lookup(self.entries@, key@) is None,
            },
    {
        let n = self.entries.len();
        let mut i: usize = 0;
        assert(self.entries@.subrange(0, n as int) =~= self.entries@);
        while i < n
            invariant
                n == self.entries@.len(),
                i <= n,
                lookup(self.entries@, key@) == lookup(self.entries@.subrange(i as int, n as int), key@),
            decreases n - i,
        {
            assert(self.entries@.subrange(i as int, n as int).drop_first() =~= self.entries@.subrange(
                i + 1,
                n as int,
            ));
            let entry = &self.entries[i];
            if str_eq(entry.0.as_str(), key) {
                return Some(&entry.1);
            }
            i = i + 1;
        }
        None
    }

    /// The `"text"` of this column when it is text holding the digit `1`.
    pub fn phone_candidate(&self) -> (r: Option<String>)
        ensures
            match r {
                Some(t) => phone_candidate(*self) == Some(t@),
                None => phone_candidate(*self) is None,
            },
    {
        proof {
            reveal_strlit("text");
        }
        match self.get("text") {
            Some(CellValue::Text(t)) => {
                if str_contains_char(t.as_str(), '1') {
                    Some(t.clone())
                } else {
                    None
                }
            },
            _ => None,
        }
    }
}

/// Picks the phone column of an item: the first column whose `"text"` is
/// text holding the digit `1`, and returns that text. This is a heuristic
/// on purpose: the upstream schema gives no stable column identifiers.
pub fn select_phone_text(cols: &Vec<ColumnValue>) -> (r: Option<String>)
    ensures
        match r {
            Some(t) => phone_text(cols@) == Some(t@),
            None => phone_text(cols@) is None,
        },
{
    let n = cols.len();
    let mut i: usize = 0;
    assert(cols@.subrange(0, n as int) =~= cols@);
    while i < n
        invariant
            n == cols@.len(),
            i <= n,
            phone_text(cols@) == phone_text(cols@.subrange(i as int, n as int)),
        decreases n - i,
    {
        assert(cols@.subrange(i as int, n as int).drop_first() =~= cols@.subrange(i + 1, n as int));
        let found = cols[i].phone_candidate();
        if found.is_some() {
            return found;
        }
        i = i + 1;
    }
    None
}

} // verus!
