//! Cleaning of the filters that the account listing receives: only the keys
//! the account model honours, and only with string values, are kept.
use vstd::prelude::*;
use crate::json::{distinct_names, has_name, lemma_distinct_names_drop_last, lemma_distinct_names_push, JsonMap, JsonValue};
use crate::text::str_equals;

verus! {

/// Whether a key is one the account listing honours.
pub open spec fn is_account_filter_key(k: Seq<char>) -> bool {
    k == "provider"@ || k == "nick_name"@
}

/// Whether cleaning keeps a member.
pub open spec fn keeps_member(member: (String, JsonValue)) -> bool {
    is_account_filter_key(member.0@) && member.1 is Str
}

/// The members of a filter that cleaning keeps, in their order.
pub open spec fn kept_members(entries: Seq<(String, JsonValue)>) -> Seq<(String, JsonValue)>
    decreases entries.len(),
{
    if entries.len() == 0 {
        Seq::empty()
    } else if keeps_member(entries.last()) {
        kept_members(entries.drop_last()).push(entries.last())
    } else {
        kept_members(entries.drop_last())
    }
}

/// Cleaning keeps only names the filter had, so a filter without repeated
/// names gives a cleaned one without them.
proof fn lemma_kept_names(entries: Seq<(String, JsonValue)>)
    ensures
        forall|k: Seq<char>| #[trigger] has_name(kept_members(entries), k) ==> has_name(entries, k),
        distinct_names(entries) ==> distinct_names(kept_members(entries)),
    decreases entries.len(),
{
    if entries.len() > 0 {
        let init = entries.drop_last();
        lemma_kept_names(init);
        let rest = kept_members(init);
        let out = kept_members(entries);
        assert(out == if keeps_member(entries.last()) { rest.push(entries.last()) } else { rest });
        assert forall|k: Seq<char>| has_name(out, k) implies has_name(entries, k) by {
            let j = choose|j: int| 0 <= j < out.len() && (#[trigger] out[j]).0@ == k;
            if j < rest.len() {
                assert(out[j] == rest[j]);
                assert(rest[j].0@ == k);
                assert(has_name(rest, k));
                let j2 = choose|j2: int| 0 <= j2 < init.len() && (#[trigger] init[j2]).0@ == k;
                assert(init[j2] == entries[j2]);
            } else {
                assert(entries[entries.len() - 1].0@ == k);
            }
        }
        if distinct_names(entries) {
            lemma_distinct_names_drop_last(entries);
            if keeps_member(entries.last()) {
                lemma_distinct_names_push(rest, entries.last());
            }
        }
    }
}

/// Keeps the members of the filter under `provider` or `nick_name` whose
/// values are strings; drops the rest.
pub fn clean_cloud_account_filter(filter: JsonMap) -> (r: JsonMap)
    ensures
        r.entries@ == kept_members(filter.entries@),
        filter.has_distinct_keys() ==> r.has_distinct_keys(),
{
    proof {
        lemma_kept_names(filter.entries@);
    }
    let JsonMap { entries } = filter;
    let ghost orig = entries@;
    let ghost mut done: int = 0;
    let mut rest = entries;
    let mut out: Vec<(String, JsonValue)> = Vec::new();
    while rest.len() > 0
        invariant
            0 <= done <= orig.len(),
            rest@ == orig.skip(done),
            out@ == kept_members(orig.take(done)),
        decreases rest@.len(),
    {
        let (k, v) = rest.remove(0);
        proof {
            assert(orig[done] == (k, v));
            assert(orig.take(done + 1).drop_last() =~= orig.take(done));
            assert(orig.take(done + 1).last() == (k, v));
        }
        if (str_equals(&k, "provider") || str_equals(&k, "nick_name")) && v.is_string() {
            out.push((k, v));
        }
        proof {
            done = done + 1;
            assert(rest@ =~= orig.skip(done));
        }
    }
    assert(orig.take(done) =~= orig);
    JsonMap { entries: out }
}

proof fn lemma_kept_members(entries: Seq<(String, JsonValue)>)
    ensures
        kept_members(kept_members(entries)) == kept_members(entries),
        forall|i: int| 0 <= i < kept_members(entries).len() ==> keeps_member(#[trigger] kept_members(entries)[i]),
        forall|i: int| 0 <= i < entries.len() && keeps_member(#[trigger] entries[i]) ==> kept_members(entries).contains(
            entries[i],
        ),
    decreases entries.len(),
{
    if entries.len() > 0 {
        let init = entries.drop_last();
        lemma_kept_members(init);
        let k = kept_members(init);
        if keeps_member(entries.last()) {
            let out = k.push(entries.last());
            assert(out.drop_last() =~= k);
            assert forall|i: int| 0 <= i < out.len() implies keeps_member(#[trigger] out[i]) by {
                if i < k.len() {
                    assert(out[i] == k[i]);
                }
            }
            assert forall|i: int| 0 <= i < entries.len() && keeps_member(#[trigger] entries[i]) implies out.contains(
                entries[i],
            ) by {
                if i < init.len() {
                    assert(entries[i] == init[i]);
                    let j = choose|j: int| 0 <= j < k.len() && k[j] == init[i];
                    assert(out[j] == k[j]);
                } else {
                    assert(out[k.len() as int] == entries[i]);
                }
            }
        } else {
            assert forall|i: int| 0 <= i < entries.len() && keeps_member(#[trigger] entries[i]) implies k.contains(
                entries[i],
            ) by {
                assert(i < init.len());
                assert(entries[i] == init[i]);
            }
        }
    }
}

/// Cleaning a cleaned account filter changes nothing; every member of a
/// cleaned filter is under an honoured key with a string value; and every
/// such member of the input is kept.
pub proof fn law_clean_cloud_account_filter(entries: Seq<(String, JsonValue)>)
    ensures
        kept_members(kept_members(entries)) == kept_members(entries),
        forall|i: int| 0 <= i < kept_members(entries).len() ==> keeps_member(#[trigger] kept_members(entries)[i]),
        forall|i: int| 0 <= i < entries.len() && keeps_member(#[trigger] entries[i]) ==> kept_members(entries).contains(
            entries[i],
        ),
{
    lemma_kept_members(entries);
}

} // verus!
