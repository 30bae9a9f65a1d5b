//! The JSON document model that requests, filters and rows are handled in.
use vstd::prelude::*;
use crate::text::str_equals;

verus! {

/// A JSON number.
#[derive(Clone, Copy, PartialEq, Eq, Structural, Debug)]
pub enum JsonNumber {
    /// A non-negative integer.
    PosInt(u64),
    /// A negative integer.
    NegInt(i64),
    /// A floating-point number, held by its IEEE-754 bit pattern.
    Float(u64),
}

impl JsonNumber {
    /// The number as an `i64`, where it is an integer in range.
    pub open spec fn spec_as_i64(self) -> Option<i64> {
        match self {
            JsonNumber::PosInt(n) => if n <= 0x7fff_ffff_ffff_ffffu64 {
                Some(n as i64)
            } else {
                None
            },
            JsonNumber::NegInt(n) => Some(n),
            JsonNumber::Float(_) => None,
        }
    }

    /// The number as a `u64`, where it is a non-negative integer.
    pub open spec fn spec_as_u64(self) -> Option<u64> {
        match self {
            JsonNumber::PosInt(n) => Some(n),
            _ => None,
        }
    }

    /// The number that an `i64` is stored as.
    pub open spec fn spec_from_i64(n: i64) -> JsonNumber {
        if n < 0 {
            JsonNumber::NegInt(n)
        } else {
            JsonNumber::PosInt(n as u64)
        }
    }

    pub fn as_i64(&self) -> (r: Option<i64>)
        ensures
            r == self.spec_as_i64(),
    {
        match self {
            JsonNumber::PosInt(n) => if *n <= 0x7fff_ffff_ffff_ffffu64 {
                Some(*n as i64)
            } else {
                None
            },
            JsonNumber::NegInt(n) => Some(*n),
            JsonNumber::Float(_) => None,
        }
    }

    pub fn as_u64(&self) -> (r: Option<u64>)
        ensures
            r == self.spec_as_u64(),
    {
        match self {
            JsonNumber::PosInt(n) => Some(*n),
            _ => None,
        }
    }

    pub fn is_i64(&self) -> (r: bool)
        ensures
            r == self.spec_as_i64() is Some,
    {
        self.as_i64().is_some()
    }

    pub fn from_i64(n: i64) -> (r: JsonNumber)
        ensures
            r == JsonNumber::spec_from_i64(n),
    {
        if n < 0 {
            JsonNumber::NegInt(n)
        } else {
            JsonNumber::PosInt(n as u64)
        }
    }
}

/// A JSON value.
#[derive(PartialEq, Debug)]
pub enum JsonValue {
    Null,
    Bool(bool),
    Number(JsonNumber),
    Str(String),
    Array(Vec<JsonValue>),
    Object(JsonMap),
}

/// The characters of an optional `String`.
pub open spec fn opt_text(o: Option<String>) -> Option<Seq<char>> {
    match o {
        Some(s) => Some(s@),
        None => None,
    }
}

impl JsonValue {
    /// The characters of a JSON string.
    pub open spec fn spec_as_str(self) -> Option<Seq<char>> {
        match self {
            JsonValue::Str(s) => Some(s@),
            _ => None,
        }
    }

    pub open spec fn spec_as_i64(self) -> Option<i64> {
        match self {
            JsonValue::Number(n) => n.spec_as_i64(),
            _ => None,
        }
    }

    pub open spec fn spec_as_u64(self) -> Option<u64> {
        match self {
            JsonValue::Number(n) => n.spec_as_u64(),
            _ => None,
        }
    }

    pub open spec fn spec_as_bool(self) -> Option<bool> {
        match self {
            JsonValue::Bool(b) => Some(b),
            _ => None,
        }
    }

    /// A copy of the JSON string, where the value is one.
    pub fn as_string(&self) -> (r: Option<String>)
        ensures
            opt_text(r) == self.spec_as_str(),
    {
        match self {
            JsonValue::Str(s) => Some(s.clone()),
            _ => None,
        }
    }

    pub fn as_i64(&self) -> (r: Option<i64>)
        ensures
            r == self.spec_as_i64(),
    {
        match self {
            JsonValue::Number(n) => n.as_i64(),
            _ => None,
        }
    }

    pub fn as_u64(&self) -> (r: Option<u64>)
        ensures
            r == self.spec_as_u64(),
    {
        match self {
            JsonValue::Number(n) => n.as_u64(),
            _ => None,
        }
    }

    pub fn as_bool(&self) -> (r: Option<bool>)
        ensures
            r == self.spec_as_bool(),
    {
        match self {
            JsonValue::Bool(b) => Some(*b),
            _ => None,
        }
    }

    pub fn is_string(&self) -> (r: bool)
        ensures
            r == (self is Str),
    {
        match self {
            JsonValue::Str(_) => true,
            _ => false,
        }
    }

    pub fn is_i64(&self) -> (r: bool)
        ensures
            r == self.spec_as_i64() is Some,
    {
        self.as_i64().is_some()
    }
}

/// A JSON object: its members in order.
#[derive(PartialEq, Debug)]
pub struct JsonMap {
    pub entries: Vec<(String, JsonValue)>,
}

/// The value of the first member named `key`.
pub open spec fn lookup(entries: Seq<(String, JsonValue)>, key: Seq<char>) -> Option<JsonValue>
    decreases entries.len(),
{
    if entries.len() == 0 {
        None
    } else if entries[0].0@ == key {
        Some(entries[0].1)
    } else {
        lookup(entries.drop_first(), key)
    }
}

/// Looking a key up skips members with other names.
pub proof fn lemma_lookup_skip(entries: Seq<(String, JsonValue)>, key: Seq<char>, i: int)
    requires
        0 <= i <= entries.len(),
        forall|j: int| 0 <= j < i ==> (#[trigger] entries[j]).0@ != key,
    ensures
        lookup(entries, key) == lookup(entries.skip(i), key),
    decreases i,
{
    if i > 0 {
        assert(entries[0].0@ != key);
        let rest = entries.drop_first();
        assert forall|j: int| 0 <= j < i - 1 implies (#[trigger] rest[j]).0@ != key by {
            assert(rest[j] == entries[j + 1]);
        }
        lemma_lookup_skip(rest, key, i - 1);
        assert(rest.skip(i - 1) =~= entries.skip(i));
    } else {
        assert(entries.skip(0) =~= entries);
    }
}

/// The first member named `key` is the one looked up.
pub proof fn lemma_lookup_at(entries: Seq<(String, JsonValue)>, key: Seq<char>, i: int)
    requires
        0 <= i < entries.len(),
        entries[i].0@ == key,
        forall|j: int| 0 <= j < i ==> (#[trigger] entries[j]).0@ != key,
    ensures
        lookup(entries, key) == Some(entries[i].1),
{
    lemma_lookup_skip(entries, key, i);
    assert(entries.skip(i)[0] == entries[i]);
}

/// Without a member named `key`, nothing is looked up.
pub proof fn lemma_lookup_absent(entries: Seq<(String, JsonValue)>, key: Seq<char>)
    requires
        forall|j: int| 0 <= j < entries.len() ==> (#[trigger] entries[j]).0@ != key,
    ensures
        lookup(entries, key) is None,
{
    lemma_lookup_skip(entries, key, entries.len() as int);
    assert(entries.skip(entries.len() as int).len() == 0);
}

/// Where nothing is looked up, no member has the name.
pub proof fn lemma_lookup_none(entries: Seq<(String, JsonValue)>, key: Seq<char>)
    requires
        lookup(entries, key) is None,
    ensures
        forall|j: int| 0 <= j < entries.len() ==> (#[trigger] entries[j]).0@ != key,
    decreases entries.len(),
{
    if entries.len() > 0 {
        let rest = entries.drop_first();
        lemma_lookup_none(rest, key);
        assert forall|j: int| 0 <= j < entries.len() implies (#[trigger] entries[j]).0@ != key by {
            if j > 0 {
                assert(entries[j] == rest[j - 1]);
            }
        }
    }
}

/// Removing a member named otherwise leaves a lookup unchanged.
pub proof fn lemma_lookup_remove(entries: Seq<(String, JsonValue)>, i: int, key: Seq<char>)
    requires
        0 <= i < entries.len(),
        entries[i].0@ != key,
    ensures
        lookup(entries.remove(i), key) == lookup(entries, key),
    decreases i,
{
    if i == 0 {
        assert(entries.remove(0) =~= entries.drop_first());
    } else {
        let rest = entries.drop_first();
        lemma_lookup_remove(rest, i - 1, key);
        assert(entries.remove(i).drop_first() =~= rest.remove(i - 1));
        assert(entries.remove(i)[0] == entries[0]);
    }
}

/// Appending a member leaves the lookup of a name that is already there, or
/// of another name, unchanged.
pub proof fn lemma_lookup_push(
    entries: Seq<(String, JsonValue)>,
    entry: (String, JsonValue),
    key: Seq<char>,
)
    ensures
        lookup(entries.push(entry), key) == if lookup(entries, key) is Some {
            lookup(entries, key)
        } else if entry.0@ == key {
            Some(entry.1)
        } else {
            None
        },
    decreases entries.len(),
{
    let pushed = entries.push(entry);
    if entries.len() == 0 {
        assert(pushed.drop_first() =~= Seq::<(String, JsonValue)>::empty());
        assert(pushed[0] == entry);
        assert(lookup(pushed.drop_first(), key) is None);
    } else {
        lemma_lookup_push(entries.drop_first(), entry, key);
        assert(pushed.drop_first() =~= entries.drop_first().push(entry));
        assert(pushed[0] == entries[0]);
    }
}

/// Replacing a member whose name is not `key` by another whose name is not
/// `key` leaves the lookup of `key` unchanged.
pub proof fn lemma_lookup_update(
    entries: Seq<(String, JsonValue)>,
    i: int,
    entry: (String, JsonValue),
    key: Seq<char>,
)
    requires
        0 <= i < entries.len(),
        entries[i].0@ != key,
        entry.0@ != key,
    ensures
        lookup(entries.update(i, entry), key) == lookup(entries, key),
    decreases i,
{
    if i == 0 {
        assert(entries.update(0, entry).drop_first() =~= entries.drop_first());
    } else {
        lemma_lookup_update(entries.drop_first(), i - 1, entry, key);
        assert(entries.update(i, entry).drop_first() =~= entries.drop_first().update(i - 1, entry));
        assert(entries.update(i, entry)[0] == entries[0]);
    }
}

/// Whether a member of the list has the name.
pub open spec fn has_name(entries: Seq<(String, JsonValue)>, key: Seq<char>) -> bool {
    exists|j: int| 0 <= j < entries.len() && (#[trigger] entries[j]).0@ == key
}

/// Whether no two members of a list share a name.
pub open spec fn distinct_names(entries: Seq<(String, JsonValue)>) -> bool {
    forall|i: int, j: int|
        0 <= i < j < entries.len() ==> (#[trigger] entries[i]).0@ != (#[trigger] entries[j]).0@
}

/// Dropping the last member of a list with distinct names leaves one.
pub proof fn lemma_distinct_names_drop_last(entries: Seq<(String, JsonValue)>)
    requires
        entries.len() > 0,
        distinct_names(entries),
    ensures
        distinct_names(entries.drop_last()),
        !has_name(entries.drop_last(), entries.last().0@),
{
    let init = entries.drop_last();
    assert forall|i: int, j: int| 0 <= i < j < init.len() implies (#[trigger] init[i]).0@ != (#[trigger] init[j]).0@ by {
        assert(init[i] == entries[i]);
        assert(init[j] == entries[j]);
    }
    if has_name(init, entries.last().0@) {
        let j = choose|j: int| 0 <= j < init.len() && (#[trigger] init[j]).0@ == entries.last().0@;
        assert(init[j] == entries[j]);
        assert(entries[j].0@ != entries[entries.len() - 1].0@);
    }
}

/// Appending a member whose name the list does not hold keeps the names
/// distinct.
pub proof fn lemma_distinct_names_push(entries: Seq<(String, JsonValue)>, entry: (String, JsonValue))
    requires
        distinct_names(entries),
        !has_name(entries, entry.0@),
    ensures
        distinct_names(entries.push(entry)),
{
    let after = entries.push(entry);
    assert forall|i: int, j: int| 0 <= i < j < after.len() implies (#[trigger] after[i]).0@ != (#[trigger] after[j]).0@ by {
        assert(after[i] == entries[i]);
        if j < entries.len() {
            assert(after[j] == entries[j]);
        } else {
            assert(after[j] == entry);
            if after[i].0@ == entry.0@ {
                assert(has_name(entries, entry.0@));
            }
        }
    }
}

impl JsonMap {
    /// The value of the member named `key`.
    pub open spec fn spec_get(self, key: Seq<char>) -> Option<JsonValue> {
        lookup(self.entries@, key)
    }

    /// Whether no two members share a name, as `serde_json::Map` ensures of
    /// its objects. Building an object with `new`, `insert`, `take` and
    /// `push` of absent names keeps it.
    pub open spec fn has_distinct_keys(self) -> bool {
        distinct_names(self.entries@)
    }

    /// An object without members.
    pub fn new() -> (m: JsonMap)
        ensures
            m.entries@.len() == 0,
            m.has_distinct_keys(),
    {
        JsonMap { entries: Vec::new() }
    }

    pub fn len(&self) -> (r: usize)
        ensures
            r == self.entries@.len(),
    {
        self.entries.len()
    }

    /// Appends a member.
    pub fn push(&mut self, key: String, value: JsonValue)
        ensures
            final(self).entries@ == old(self).entries@.push((key, value)),
            final(self).has_distinct_keys() == (old(self).has_distinct_keys() && old(self).spec_get(key@) is None),
    {
        let ghost before = self.entries@;
        let ghost kv = key@;
        self.entries.push((key, value));
        proof {
            let after = self.entries@;
            if distinct_names(before) && lookup(before, kv) is None {
                lemma_lookup_none(before, kv);
                assert forall|i: int, j: int| 0 <= i < j < after.len() implies (#[trigger] after[i]).0@
                    != (#[trigger] after[j]).0@ by {
                    if j == after.len() - 1 {
                        assert(after[i] == before[i]);
                    } else {
                        assert(after[i] == before[i]);
                        assert(after[j] == before[j]);
                    }
                }
            }
            if distinct_names(after) {
                assert forall|i: int, j: int| 0 <= i < j < before.len() implies (#[trigger] before[i]).0@
                    != (#[trigger] before[j]).0@ by {
                    assert(after[i] == before[i]);
                    assert(after[j] == before[j]);
                }
                assert forall|j: int| 0 <= j < before.len() implies (#[trigger] before[j]).0@ != kv by {
                    assert(after[j] == before[j]);
                    assert(after[after.len() - 1].0@ == kv);
                }
                lemma_lookup_absent(before, kv);
            }
        }
    }

    /// The position of the first member named `key`.
    pub fn position(&self, key: &str) -> (r: Option<usize>)
        ensures
            match r {
                Some(i) => {
                    &&& i < self.entries@.len()
                    &&& self.entries@[i as int].0@ == key@
                    &&& forall|j: int| 0 <= j < i ==> (#[trigger] self.entries@[j]).0@ != key@
                },
                None => forall|j: int|
                    0 <= j < self.entries@.len() ==> (#[trigger] self.entries@[j]).0@ != key@,
            },
    {
        let n = self.entries.len();
        let mut i: usize = 0;
        while i < n
            invariant
                n == self.entries@.len(),
                i <= n,
                forall|j: int| 0 <= j < i ==> (#[trigger] self.entries@[j]).0@ != key@,
            decreases n - i,
        {
            if str_equals(&self.entries[i].0, key) {
                return Some(i);
            }
            i = i + 1;
        }
        None
    }

    /// The value of the member named `key`.
    pub fn get(&self, key: &str) -> (r: Option<&JsonValue>)
        ensures
            match r {
                Some(v) => self.spec_get(key@) == Some(*v),
                None => self.spec_get(key@) is None,
            },
    {
        match self.position(key) {
            Some(i) => {
                proof {
                    lemma_lookup_at(self.entries@, key@, i as int);
                }
                Some(&self.entries[i].1)
            },
            None => {
                proof {
                    lemma_lookup_absent(self.entries@, key@);
                }
                None
            },
        }
    }

    /// Sets the member named `key` to `value`: in place of the first member
    /// with that name, or appended where there is none. The members with other
    /// names stay as they were.
    pub fn insert(&mut self, key: String, value: JsonValue)
        ensures
            final(self).spec_get(key@) == Some(value),
            forall|k: Seq<char>| k != key@ ==> #[trigger] final(self).spec_get(k) == old(self).spec_get(k),
            old(self).has_distinct_keys() ==> final(self).has_distinct_keys(),
    {
        let ghost kv = key@;
        match self.position(key.as_str()) {
            Some(i) => {
                let ghost before = self.entries@;
                self.entries.set(i, (key, value));
                proof {
                    let after = before.update(i as int, (self.entries@[i as int]));
                    assert(self.entries@ =~= after);
                    assert forall|j: int| 0 <= j < i implies (#[trigger] self.entries@[j]).0@ != kv by {
                        assert(self.entries@[j] == before[j]);
                    }
                    lemma_lookup_at(self.entries@, kv, i as int);
                    assert forall|k: Seq<char>| k != kv implies #[trigger] lookup(self.entries@, k) == lookup(
                        before,
                        k,
                    ) by {
                        lemma_lookup_update(before, i as int, self.entries@[i as int], k);
                    }
                    let after = self.entries@;
                    if distinct_names(before) {
                        assert forall|a: int, b: int| 0 <= a < b < after.len() implies (#[trigger] after[a]).0@
                            != (#[trigger] after[b]).0@ by {
                            assert(after[a].0@ == before[a].0@);
                            assert(after[b].0@ == before[b].0@);
                        }
                    }
                }
            },
            None => {
                let ghost before = self.entries@;
                proof {
                    lemma_lookup_absent(before, kv);
                }
                self.entries.push((key, value));
                proof {
                    assert forall|k: Seq<char>| k != kv implies #[trigger] lookup(self.entries@, k) == lookup(
                        before,
                        k,
                    ) by {
                        lemma_lookup_push(before, self.entries@.last(), k);
                    }
                    lemma_lookup_push(before, self.entries@.last(), kv);
                    let after = self.entries@;
                    if distinct_names(before) {
                        assert forall|a: int, b: int| 0 <= a < b < after.len() implies (#[trigger] after[a]).0@
                            != (#[trigger] after[b]).0@ by {
                            assert(after[a] == before[a]);
                            if b < before.len() {
                                assert(after[b] == before[b]);
                            }
                        }
                    }
                }
            },
        }
    }

    /// Removes the member named `key` and gives back its value; the members
    /// with other names stay as they were.
    pub fn take(&mut self, key: &str) -> (r: Option<JsonValue>)
        ensures
            r == old(self).spec_get(key@),
            forall|k: Seq<char>| k != key@ ==> #[trigger] final(self).spec_get(k) == old(self).spec_get(k),
            old(self).has_distinct_keys() ==> final(self).has_distinct_keys(),
    {
        match self.position(key) {
            Some(i) => {
                proof {
                    lemma_lookup_at(self.entries@, key@, i as int);
                    assert forall|k: Seq<char>| k != key@ implies #[trigger] lookup(
                        self.entries@.remove(i as int),
                        k,
                    ) == lookup(self.entries@, k) by {
                        lemma_lookup_remove(self.entries@, i as int, k);
                    }
                }
                let ghost before = self.entries@;
                let (_, v) = self.entries.remove(i);
                proof {
                    let after = self.entries@;
                    assert(after =~= before.remove(i as int));
                    if distinct_names(before) {
                        assert forall|a: int, b: int| 0 <= a < b < after.len() implies (#[trigger] after[a]).0@
                            != (#[trigger] after[b]).0@ by {
                            let a0 = if a < i { a } else { a + 1 };
                            let b0 = if b < i { b } else { b + 1 };
                            assert(after[a] == before[a0]);
                            assert(after[b] == before[b0]);
                        }
                    }
                }
                Some(v)
            },
            None => {
                proof {
                    lemma_lookup_absent(self.entries@, key@);
                }
                None
            },
        }
    }
}

} // verus!
