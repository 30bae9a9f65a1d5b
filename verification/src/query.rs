//! Query plans: the column conditions that a filter object asks of a table.
//!
//! A model lists, for each filter key it honours, the column it constrains and
//! how: equal to a string, containing a string, or equal to a 32-bit integer.
//! Members under other keys, or with values of another type, are ignored.
use vstd::prelude::*;
use crate::json::{JsonMap, JsonValue};
use crate::table::{assoc_find, assoc_lookup, name_views};
use crate::text::{concat3, owned};

verus! {

/// How a filter key constrains its column.
#[derive(Clone, Copy, PartialEq, Eq, Structural, Debug)]
pub enum MatchKind {
    /// The column equals the string given.
    Exact,
    /// The column contains the string given (`LIKE '%value%'`).
    Contains,
    /// The column equals the integer given, cut to 32 bits.
    ExactI32,
}

/// A condition on one column.
#[derive(Debug, PartialEq)]
pub enum Condition {
    Equals(String),
    Like(String),
    EqualsInt(i32),
}

/// A condition on a named column.
#[derive(Debug, PartialEq)]
pub struct ColumnFilter {
    pub column: String,
    pub condition: Condition,
}

pub enum ConditionView {
    Equals(Seq<char>),
    Like(Seq<char>),
    EqualsInt(i32),
}

pub struct ColumnFilterView {
    pub column: Seq<char>,
    pub condition: ConditionView,
}

impl View for ColumnFilter {
    type V = ColumnFilterView;

    open spec fn view(&self) -> ColumnFilterView {
        ColumnFilterView {
            column: self.column@,
            condition: match self.condition {
                Condition::Equals(s) => ConditionView::Equals(s@),
                Condition::Like(s) => ConditionView::Like(s@),
                Condition::EqualsInt(n) => ConditionView::EqualsInt(n),
            },
        }
    }
}

/// The views of a list of column conditions.
pub open spec fn filters_view(s: Seq<ColumnFilter>) -> Seq<ColumnFilterView> {
    s.map_values(|f: ColumnFilter| f@)
}

/// The rules of a model: for each filter key, its column and how it matches.
pub type FilterRules = Seq<(Seq<char>, (&'static str, MatchKind))>;

/// The `LIKE` pattern that matches texts containing `s`.
pub open spec fn contains_pattern(s: Seq<char>) -> Seq<char> {
    seq!['%'] + s + seq!['%']
}

/// The condition a filter member puts on its column, if any.
pub open spec fn plan_member(rules: FilterRules, member: (String, JsonValue)) -> Option<
    ColumnFilterView,
> {
    match assoc_lookup(rules, member.0@) {
        Some(rule) => match rule.1 {
            MatchKind::Exact => match member.1.spec_as_str() {
                Some(s) => Some(ColumnFilterView { column: rule.0@, condition: ConditionView::Equals(s) }),
                None => None,
            },
            MatchKind::Contains => match member.1.spec_as_str() {
                Some(s) => Some(
                    ColumnFilterView { column: rule.0@, condition: ConditionView::Like(contains_pattern(s)) },
                ),
                None => None,
            },
            MatchKind::ExactI32 => match member.1.spec_as_i64() {
                Some(n) => Some(
                    ColumnFilterView { column: rule.0@, condition: ConditionView::EqualsInt(n as i32) },
                ),
                None => None,
            },
        },
        None => None,
    }
}

/// The conditions a filter puts on a table, in the order of its members.
pub open spec fn plan_entries(rules: FilterRules, entries: Seq<(String, JsonValue)>) -> Seq<
    ColumnFilterView,
>
    decreases entries.len(),
{
    if entries.len() == 0 {
        Seq::empty()
    } else {
        let rest = plan_entries(rules, entries.drop_last());
        match plan_member(rules, entries.last()) {
            Some(f) => rest.push(f),
            None => rest,
        }
    }
}

fn plan_one(rules: &Vec<(&'static str, (&'static str, MatchKind))>, key: &String, value: &JsonValue) -> (r:
    Option<ColumnFilter>)
    ensures
        match r {
            Some(f) => plan_member(name_views(rules@), (*key, *value)) == Some(f@),
            None => plan_member(name_views(rules@), (*key, *value)) is None,
        },
{
    match assoc_find(rules, key.as_str()) {
        Some(rule) => {
            let (column, kind) = rule;
            match kind {
                MatchKind::Exact => match value.as_string() {
                    Some(s) => Some(ColumnFilter { column: owned(column), condition: Condition::Equals(s) }),
                    None => None,
                },
                MatchKind::Contains => match value.as_string() {
                    Some(s) => {
                        proof {
                            reveal_strlit("%");
                        }
                        let pattern = concat3("%", s.as_str(), "%");
                        assert(pattern@ =~= contains_pattern(s@));
                        Some(ColumnFilter { column: owned(column), condition: Condition::Like(pattern) })
                    },
                    None => None,
                },
                MatchKind::ExactI32 => match value.as_i64() {
                    Some(n) => Some(
                        ColumnFilter { column: owned(column), condition: Condition::EqualsInt(n as i32) },
                    ),
                    None => None,
                },
            }
        },
        None => None,
    }
}

/// The conditions a filter puts on a table under the given rules.
pub fn plan_filters(rules: &Vec<(&'static str, (&'static str, MatchKind))>, filter: &JsonMap) -> (r: Vec<
    ColumnFilter,
>)
    ensures
        filters_view(r@) == plan_entries(name_views(rules@), filter.entries@),
{
    let ghost views = name_views(rules@);
    let ghost entries = filter.entries@;
    let n = filter.entries.len();
    let mut out: Vec<ColumnFilter> = Vec::new();
    let mut i: usize = 0;
    while i < n
        invariant
            n == entries.len(),
            entries == filter.entries@,
            views == name_views(rules@),
            i <= n,
            filters_view(out@) == plan_entries(views, entries.take(i as int)),
        decreases n - i,
    {
        let entry = &filter.entries[i];
        let planned = plan_one(rules, &entry.0, &entry.1);
        proof {
            assert(entries.take(i + 1).drop_last() =~= entries.take(i as int));
            assert(entries.take(i + 1).last() == entries[i as int]);
            assert(entries[i as int] == (entry.0, entry.1));
        }
        let ghost before = out@;
        match planned {
            Some(f) => {
                out.push(f);
                assert(filters_view(out@) =~= filters_view(before).push(f@));
            },
            None => {},
        }
        i = i + 1;
    }
    assert(entries.take(n as int) =~= entries);
    out
}

} // verus!
