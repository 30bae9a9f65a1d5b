//! Cleaning of the filters that query endpoints receive.
//!
//! Each table has a whitelist of filter keys with the type each expects.
//! Members with other keys, and members whose value has the wrong type, are
//! stripped; strings under integer keys are coerced to integers where they
//! parse as one.
use vstd::prelude::*;
use crate::json::{
    distinct_names, has_name, lemma_distinct_names_drop_last, lemma_distinct_names_push, JsonMap, JsonNumber, JsonValue,
};
use crate::table::{assoc_find, assoc_lookup, name_views, Table};
use crate::text::{parse_i64, spec_parse_i64};

verus! {

/// The JSON type a whitelisted filter key expects.
#[derive(Clone, Copy, PartialEq, Eq, Structural, Debug)]
pub enum FilterValueType {
    Str,
    Int,
}

impl FilterValueType {
    /// A value normalised to the expected type: values of that type pass
    /// through; under an integer key a string that parses as an `i64` becomes
    /// that number; anything else is refused.
    pub open spec fn spec_coerce(self, value: JsonValue) -> Option<JsonValue> {
        match self {
            FilterValueType::Str => if value is Str {
                Some(value)
            } else {
                None
            },
            FilterValueType::Int => match value {
                JsonValue::Number(n) => if n.spec_as_i64() is Some {
                    Some(value)
                } else {
                    None
                },
                JsonValue::Str(s) => match spec_parse_i64(s@) {
                    Some(k) => Some(JsonValue::Number(JsonNumber::spec_from_i64(k))),
                    None => None,
                },
                _ => None,
            },
        }
    }

    pub fn coerce(self, value: JsonValue) -> (r: Option<JsonValue>)
        ensures
            r == self.spec_coerce(value),
    {
        match self {
            FilterValueType::Str => if value.is_string() {
                Some(value)
            } else {
                None
            },
            FilterValueType::Int => match value {
                JsonValue::Number(n) => if n.is_i64() {
                    Some(JsonValue::Number(n))
                } else {
                    None
                },
                JsonValue::Str(s) => match parse_i64(s.as_str()) {
                    Some(k) => Some(JsonValue::Number(JsonNumber::from_i64(k))),
                    None => None,
                },
                _ => None,
            },
        }
    }
}

/// The filter keys a table accepts, with the type each one expects.
pub open spec fn whitelist(t: Table) -> Seq<(Seq<char>, FilterValueType)> {
    match t {
        Table::Lighthouse => seq![("provider"@, FilterValueType::Str), ("zone"@, FilterValueType::Str), ("platform"@, FilterValueType::Str), ("instance_id"@, FilterValueType::Str), ("instance_name"@, FilterValueType::Str)],
        Table::CloudserverInstance => seq![("provider"@, FilterValueType::Str), ("zone"@, FilterValueType::Str), ("platform"@, FilterValueType::Str), ("instance_id"@, FilterValueType::Str), ("status"@, FilterValueType::Str), ("instance_name"@, FilterValueType::Str)],
        Table::LogserviceTopic => seq![("provider"@, FilterValueType::Str), ("set_id"@, FilterValueType::Str), ("topic_id"@, FilterValueType::Str), ("topic_name"@, FilterValueType::Str), ("status"@, FilterValueType::Str)],
        Table::CloudAccount => seq![("provider"@, FilterValueType::Str), ("nick_name"@, FilterValueType::Str)],
        Table::JobLog => seq![("exec_type"@, FilterValueType::Str), ("worker"@, FilterValueType::Str)],
        Table::CronJob => seq![("id"@, FilterValueType::Str), ("script"@, FilterValueType::Str)],
        Table::CloudstorageBucket => seq![("provider"@, FilterValueType::Str), ("bucket_name"@, FilterValueType::Str)],
        Table::AccessTable => seq![("service_id"@, FilterValueType::Int), ("group_id"@, FilterValueType::Int)],
        Table::GroupTable => seq![("group_name"@, FilterValueType::Str)],
        Table::ServiceTable => seq![("service_name"@, FilterValueType::Str), ("service_point"@, FilterValueType::Str)],
        Table::SubsystemTable => seq![("subsys_name"@, FilterValueType::Str), ("url"@, FilterValueType::Str)],
        Table::TokenTable => seq![("username"@, FilterValueType::Str)],
        Table::UserTable => seq![("username"@, FilterValueType::Str), ("full_name"@, FilterValueType::Str)],
        Table::WebhookTable => seq![("hook_name"@, FilterValueType::Str), ("method_type"@, FilterValueType::Str)],
        Table::ChannelConfigs => seq![("channel_type"@, FilterValueType::Str)],
        Table::NotificationRecords => seq![("channel_type"@, FilterValueType::Str), ("status"@, FilterValueType::Str), ("recipient"@, FilterValueType::Str)],
        Table::NotificationTemplates => seq![("channel_type"@, FilterValueType::Str), ("name"@, FilterValueType::Str)],
        Table::NotificationGroups => seq![("name"@, FilterValueType::Str)],
        Table::NotificationGroupMembers => seq![("group_id"@, FilterValueType::Int), ("channel_type"@, FilterValueType::Str)],
    }
}

/// The character views of the keys of a whitelist.
pub open spec fn key_views(s: Seq<(&'static str, FilterValueType)>) -> Seq<(Seq<char>, FilterValueType)> {
    name_views(s)
}

/// The filter keys of a table, with the type each one expects.
pub fn whitelist_of(t: Table) -> (r: Vec<(&'static str, FilterValueType)>)
    ensures
        key_views(r@) == whitelist(t),
{
    let r = match t {
        Table::Lighthouse => vec![("provider", FilterValueType::Str), ("zone", FilterValueType::Str), ("platform", FilterValueType::Str), ("instance_id", FilterValueType::Str), ("instance_name", FilterValueType::Str)],
        Table::CloudserverInstance => vec![("provider", FilterValueType::Str), ("zone", FilterValueType::Str), ("platform", FilterValueType::Str), ("instance_id", FilterValueType::Str), ("status", FilterValueType::Str), ("instance_name", FilterValueType::Str)],
        Table::LogserviceTopic => vec![("provider", FilterValueType::Str), ("set_id", FilterValueType::Str), ("topic_id", FilterValueType::Str), ("topic_name", FilterValueType::Str), ("status", FilterValueType::Str)],
        Table::CloudAccount => vec![("provider", FilterValueType::Str), ("nick_name", FilterValueType::Str)],
        Table::JobLog => vec![("exec_type", FilterValueType::Str), ("worker", FilterValueType::Str)],
        Table::CronJob => vec![("id", FilterValueType::Str), ("script", FilterValueType::Str)],
        Table::CloudstorageBucket => vec![("provider", FilterValueType::Str), ("bucket_name", FilterValueType::Str)],
        Table::AccessTable => vec![("service_id", FilterValueType::Int), ("group_id", FilterValueType::Int)],
        Table::GroupTable => vec![("group_name", FilterValueType::Str)],
        Table::ServiceTable => vec![("service_name", FilterValueType::Str), ("service_point", FilterValueType::Str)],
        Table::SubsystemTable => vec![("subsys_name", FilterValueType::Str), ("url", FilterValueType::Str)],
        Table::TokenTable => vec![("username", FilterValueType::Str)],
        Table::UserTable => vec![("username", FilterValueType::Str), ("full_name", FilterValueType::Str)],
        Table::WebhookTable => vec![("hook_name", FilterValueType::Str), ("method_type", FilterValueType::Str)],
        Table::ChannelConfigs => vec![("channel_type", FilterValueType::Str)],
        Table::NotificationRecords => vec![("channel_type", FilterValueType::Str), ("status", FilterValueType::Str), ("recipient", FilterValueType::Str)],
        Table::NotificationTemplates => vec![("channel_type", FilterValueType::Str), ("name", FilterValueType::Str)],
        Table::NotificationGroups => vec![("name", FilterValueType::Str)],
        Table::NotificationGroupMembers => vec![("group_id", FilterValueType::Int), ("channel_type", FilterValueType::Str)],
    };
    assert(key_views(r@) =~= whitelist(t));
    r
}

/// The type a whitelist gives a key.
pub open spec fn whitelisted_type(wl: Seq<(Seq<char>, FilterValueType)>, key: Seq<char>) -> Option<
    FilterValueType,
> {
    assoc_lookup(wl, key)
}

/// The type a whitelist gives a key.
pub fn key_type(wl: &Vec<(&'static str, FilterValueType)>, key: &String) -> (r: Option<FilterValueType>)
    ensures
        r == whitelisted_type(key_views(wl@), key@),
{
    assoc_find(wl, key.as_str())
}

/// What cleaning makes of one member: kept, with its value normalised, or
/// dropped.
pub open spec fn clean_member(
    wl: Seq<(Seq<char>, FilterValueType)>,
    member: (String, JsonValue),
) -> Option<(String, JsonValue)> {
    match whitelisted_type(wl, member.0@) {
        Some(t) => match t.spec_coerce(member.1) {
            Some(c) => Some((member.0, c)),
            None => None,
        },
        None => None,
    }
}

/// The members of a filter that cleaning keeps, in their order.
pub open spec fn clean_entries(
    wl: Seq<(Seq<char>, FilterValueType)>,
    entries: Seq<(String, JsonValue)>,
) -> Seq<(String, JsonValue)>
    decreases entries.len(),
{
    if entries.len() == 0 {
        Seq::empty()
    } else {
        let rest = clean_entries(wl, entries.drop_last());
        match clean_member(wl, entries.last()) {
            Some(m) => rest.push(m),
            None => rest,
        }
    }
}

/// The members of a cleaned filter for a table name: for a known table its
/// cleaned members, for any other name the members unchanged.
pub open spec fn spec_clean_query_filter(table_name: Seq<char>, query: Seq<(String, JsonValue)>) -> Seq<
    (String, JsonValue),
> {
    match Table::spec_from_name(table_name) {
        Some(t) => clean_entries(whitelist(t), query),
        None => query,
    }
}

/// Cleaning keeps only names the filter had, so a filter without repeated
/// names gives a cleaned one without them.
proof fn lemma_clean_entries_names(wl: Seq<(Seq<char>, FilterValueType)>, entries: Seq<(String, JsonValue)>)
    ensures
        forall|k: Seq<char>| #[trigger] has_name(clean_entries(wl, entries), k) ==> has_name(entries, k),
        distinct_names(entries) ==> distinct_names(clean_entries(wl, entries)),
    decreases entries.len(),
{
    if entries.len() > 0 {
        let init = entries.drop_last();
        lemma_clean_entries_names(wl, init);
        let rest = clean_entries(wl, init);
        let out = clean_entries(wl, entries);
        assert(out == match clean_member(wl, entries.last()) {
            Some(m) => rest.push(m),
            None => rest,
        });
        assert forall|k: Seq<char>| has_name(out, k) implies has_name(entries, k) by {
            let j = choose|j: int| 0 <= j < out.len() && (#[trigger] out[j]).0@ == k;
            if j < rest.len() {
                assert(out[j] == rest[j]);
                assert(rest[j].0@ == k);
                assert(has_name(rest, k));
                let j2 = choose|j2: int| 0 <= j2 < init.len() && (#[trigger] init[j2]).0@ == k;
                assert(init[j2] == entries[j2]);
            } else {
                assert(entries[entries.len() - 1].0@ == k);
            }
        }
        if distinct_names(entries) {
            lemma_distinct_names_drop_last(entries);
            match clean_member(wl, entries.last()) {
                Some(m) => {
                    lemma_distinct_names_push(rest, m);
                },
                None => {},
            }
        }
    }
}

/// Cleans the members of a filter against a whitelist.
fn clean_with(wl: &Vec<(&'static str, FilterValueType)>, entries: Vec<(String, JsonValue)>) -> (r: Vec<
    (String, JsonValue),
>)
    ensures
        r@ == clean_entries(key_views(wl@), entries@),
{
    let ghost views = key_views(wl@);
    let ghost orig = entries@;
    let ghost mut done: int = 0;
    let mut rest = entries;
    let mut out: Vec<(String, JsonValue)> = Vec::new();
    while rest.len() > 0
        invariant
            0 <= done <= orig.len(),
            rest@ == orig.skip(done),
            out@ == clean_entries(views, orig.take(done)),
            views == key_views(wl@),
        decreases rest@.len(),
    {
        let (k, v) = rest.remove(0);
        proof {
            assert(orig[done] == (k, v));
            assert(orig.take(done + 1).drop_last() =~= orig.take(done));
            assert(orig.take(done + 1).last() == (k, v));
        }
        match key_type(wl, &k) {
            Some(t) => match t.coerce(v) {
                Some(c) => {
                    out.push((k, c));
                },
                None => {},
            },
            None => {},
        }
        proof {
            done = done + 1;
            assert(rest@ =~= orig.skip(done));
        }
    }
    assert(orig.take(done) =~= orig);
    out
}

/// Strips the filter keys outside the table's whitelist and coerces string
/// forms of integer keys to integers; wrongly typed values and failed
/// coercions are stripped. A filter for an unknown table is handed back
/// unchanged.
pub fn clean_query_filter(table_name: &str, query: JsonMap) -> (r: JsonMap)
    ensures
        r.entries@ == spec_clean_query_filter(table_name@, query.entries@),
        query.has_distinct_keys() ==> r.has_distinct_keys(),
{
    proof {
        if let Some(t) = Table::spec_from_name(table_name@) {
            lemma_clean_entries_names(whitelist(t), query.entries@);
        }
    }
    match Table::from_name(table_name) {
        None => query,
        Some(t) => {
            let wl = whitelist_of(t);
            let JsonMap { entries } = query;
            JsonMap { entries: clean_with(&wl, entries) }
        },
    }
}

/// A value that coercion accepts is normalised to one that it accepts
/// unchanged.
pub proof fn lemma_coerce_idempotent(t: FilterValueType, v: JsonValue)
    ensures
        t.spec_coerce(v) matches Some(c) ==> t.spec_coerce(c) == Some(c),
{
}

proof fn lemma_clean_entries_idempotent(
    wl: Seq<(Seq<char>, FilterValueType)>,
    entries: Seq<(String, JsonValue)>,
)
    ensures
        clean_entries(wl, clean_entries(wl, entries)) == clean_entries(wl, entries),
    decreases entries.len(),
{
    if entries.len() > 0 {
        let rest = clean_entries(wl, entries.drop_last());
        lemma_clean_entries_idempotent(wl, entries.drop_last());
        match clean_member(wl, entries.last()) {
            Some(m) => {
                let t = whitelisted_type(wl, entries.last().0@).unwrap();
                lemma_coerce_idempotent(t, entries.last().1);
                assert(rest.push(m).drop_last() =~= rest);
                assert(clean_member(wl, m) == Some(m));
            },
            None => {},
        }
    }
}

/// Cleaning a cleaned filter changes nothing: cleaning is idempotent.
pub proof fn law_clean_query_filter_idempotent(table_name: Seq<char>, query: Seq<(String, JsonValue)>)
    ensures
        spec_clean_query_filter(table_name, spec_clean_query_filter(table_name, query))
            == spec_clean_query_filter(table_name, query),
{
    if let Some(t) = Table::spec_from_name(table_name) {
        lemma_clean_entries_idempotent(whitelist(t), query);
    }
}

proof fn lemma_clean_entries_members(
    wl: Seq<(Seq<char>, FilterValueType)>,
    entries: Seq<(String, JsonValue)>,
)
    ensures
        forall|i: int|
            0 <= i < clean_entries(wl, entries).len() ==> {
                let m = #[trigger] clean_entries(wl, entries)[i];
                &&& whitelisted_type(wl, m.0@) matches Some(t)
                &&& t.spec_coerce(m.1) == Some(m.1)
            },
        forall|i: int|
            0 <= i < entries.len() && (#[trigger] clean_member(wl, entries[i])) is Some ==> clean_entries(
                wl,
                entries,
            ).contains(clean_member(wl, entries[i]).unwrap()),
    decreases entries.len(),
{
    if entries.len() > 0 {
        let init = entries.drop_last();
        let rest = clean_entries(wl, init);
        lemma_clean_entries_members(wl, init);
        let last = entries.last();
        if let Some(m) = clean_member(wl, last) {
            let t = whitelisted_type(wl, last.0@).unwrap();
            lemma_coerce_idempotent(t, last.1);
            let out = rest.push(m);
            assert forall|i: int| 0 <= i < out.len() implies {
                let mm = #[trigger] out[i];
                &&& whitelisted_type(wl, mm.0@) matches Some(t)
                &&& t.spec_coerce(mm.1) == Some(mm.1)
            } by {
                if i < rest.len() {
                    assert(out[i] == rest[i]);
                }
            }
            assert forall|i: int|
                0 <= i < entries.len() && (#[trigger] clean_member(wl, entries[i])) is Some implies out.contains(
                clean_member(wl, entries[i]).unwrap(),
            ) by {
                if i < init.len() {
                    assert(entries[i] == init[i]);
                    let w = clean_member(wl, init[i]).unwrap();
                    assert(rest.contains(w));
                    let k = choose|k: int| 0 <= k < rest.len() && rest[k] == w;
                    assert(out[k] == w);
                } else {
                    assert(out[rest.len() as int] == m);
                }
            }
        } else {
            assert forall|i: int|
                0 <= i < entries.len() && (#[trigger] clean_member(wl, entries[i])) is Some implies rest.contains(
                clean_member(wl, entries[i]).unwrap(),
            ) by {
                assert(i < init.len());
                assert(entries[i] == init[i]);
            }
        }
    }
}

/// Every member of a cleaned filter for a known table has a whitelisted key
/// and a value of the type that key expects; and every member of the input
/// that cleaning accepts is there, normalised.
pub proof fn law_clean_query_filter_members(table_name: Seq<char>, query: Seq<(String, JsonValue)>)
    requires
        Table::spec_from_name(table_name) is Some,
    ensures
        ({
            let wl = whitelist(Table::spec_from_name(table_name).unwrap());
            let out = spec_clean_query_filter(table_name, query);
            &&& forall|i: int|
                0 <= i < out.len() ==> {
                    &&& whitelisted_type(wl, (#[trigger] out[i]).0@) matches Some(t)
                    &&& t.spec_coerce(out[i].1) == Some(out[i].1)
                }
            &&& forall|i: int|
                0 <= i < query.len() && (#[trigger] clean_member(wl, query[i])) is Some ==> out.contains(
                    clean_member(wl, query[i]).unwrap(),
                )
        }),
{
    let wl = whitelist(Table::spec_from_name(table_name).unwrap());
    lemma_clean_entries_members(wl, query);
}

} // verus!
