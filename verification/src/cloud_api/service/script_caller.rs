//! Running the cloud-API scripts, and listing them.
//!
//! A run looks up the account named by the request, runs the script with the
//! account's keys, and parses what the script printed. The caller performs
//! each of these three pieces of work; `run` and `step` decide, from what came
//! back, what is done next and what is answered.
use vstd::prelude::*;
use vstd::string::*;
use vstd::relations::{sorted_by, total_ordering};
use crate::fields::{field_str, get_str};
use crate::json::{JsonMap, JsonValue};
use crate::mailman::{failure, spec_failure, AnswerKeys, FailureRule, MailManErr, MailManOk, ModelError};
use crate::text::{concat2, owned};

verus! {

/// The text with every `_` turned into `/`.
pub open spec fn slashed(s: Seq<char>) -> Seq<char> {
    s.map_values(|c: char| if c == '_' { '/' } else { c })
}

/// The directory part of an API name: the segments of the name split at
/// `_`, all but the last, joined with `/`. That is the text before the last
/// `_` with every `_` turned into `/`, and empty where the name holds none.
pub open spec fn api_dir(name: Seq<char>) -> Seq<char>
    decreases name.len(),
{
    if name.len() == 0 {
        Seq::empty()
    } else if name.last() == '_' {
        slashed(name.drop_last())
    } else {
        api_dir(name.drop_last())
    }
}

/// Where the script of an API lies: `<dir>/<api_dir>/<api_name>.py`.
pub open spec fn spec_script_path(script_dir: Seq<char>, api_name: Seq<char>) -> Seq<char> {
    script_dir + seq!['/'] + api_dir(api_name) + seq!['/'] + api_name + seq!['.', 'p', 'y']
}

/// The path of the script that serves an API.
pub fn script_path(script_dir: &str, api_name: &str) -> (r: String)
    ensures
        r@ == spec_script_path(script_dir@, api_name@),
{
    let n = api_name.unicode_len();
    let mut last: Option<usize> = None;
    let mut i: usize = 0;
    while i < n
        invariant
            n == api_name@.len(),
            i <= n,
            api_dir(api_name@.take(i as int)) == (match last {
                Some(k) => slashed(api_name@.take(k as int)),
                None => Seq::<char>::empty(),
            }),
            last matches Some(k) ==> k < i,
        decreases n - i,
    {
        let c = api_name.get_char(i);
        proof {
            let t = api_name@.take(i + 1);
            assert(t.drop_last() =~= api_name@.take(i as int));
            assert(t.last() == c);
        }
        if c == '_' {
            last = Some(i);
        }
        i = i + 1;
    }
    assert(api_name@.take(n as int) =~= api_name@);
    let stop: usize = match last {
        Some(k) => k,
        None => 0,
    };
    proof {
        reveal_strlit("/");
        reveal_strlit(".py");
        assert(slashed(api_name@.take(0)) =~= Seq::<char>::empty());
    }
    let mut dir = String::new();
    let mut j: usize = 0;
    while j < stop
        invariant
            stop <= n,
            n == api_name@.len(),
            j <= stop,
            dir@ == slashed(api_name@.take(j as int)),
        decreases stop - j,
    {
        let c = api_name.get_char(j);
        proof {
            reveal_strlit("/");
        }
        if c == '_' {
            dir.append("/");
        } else {
            let one = api_name.substring_char(j, j + 1);
            assert(one@ =~= seq![c]);
            dir.append(one);
        }
        assert(slashed(api_name@.take(j + 1)) =~= slashed(api_name@.take(j as int)).push(
            if c == '_' { '/' } else { c },
        ));
        j = j + 1;
    }
    assert(dir@ == api_dir(api_name@));
    let mut r = String::from_str(script_dir);
    r.append("/");
    r.append(dir.as_str());
    r.append("/");
    r.append(api_name);
    r.append(".py");
    assert(r@ =~= spec_script_path(script_dir@, api_name@));
    r
}

/// The program and the arguments of a script process.
#[derive(Debug)]
pub struct ScriptCall {
    pub program: String,
    pub args: Vec<String>,
}

/// Where a run stands.
#[derive(Debug)]
pub enum RunState {
    /// Waiting for the accounts that match the cloud user.
    AwaitingAccounts {
        script_path: String,
        python_path: String,
        region: String,
        params: String,
        cloud_user: String,
    },
    /// Waiting for what the script printed.
    AwaitingOutput,
    /// Waiting for the parse of the script's output.
    AwaitingParse { output: String },
    /// The run is over.
    Finished,
}

/// What came back of the work last asked for.
#[derive(Debug)]
pub enum RunEvent {
    /// The accounts that matched the filter, or the model failure.
    Accounts(Result<Vec<JsonValue>, ModelError>),
    /// What the process printed on stdout and stderr, or the text of the
    /// error that kept it from running.
    Output(Result<(String, String), String>),
    /// The output parsed as JSON, or `None` where it is not JSON.
    Parsed(Option<JsonValue>),
}

/// What the caller is to do next.
#[derive(Debug)]
pub enum RunAction {
    /// Look up the accounts that match this filter.
    QueryAccounts(JsonMap),
    /// Run this process and report what it printed.
    RunProcess(ScriptCall),
    /// Parse this text as JSON.
    ParseJson(String),
    /// The run is over with this answer.
    Finish(Result<MailManOk<JsonValue>, MailManErr>),
}

/// The number of events a run in this state can still take.
pub open spec fn remaining(s: RunState) -> nat {
    match s {
        RunState::AwaitingAccounts { .. } => 3,
        RunState::AwaitingOutput => 2,
        RunState::AwaitingParse { .. } => 1,
        RunState::Finished => 0,
    }
}

/// Whether an account row is an object with the keys `ak` and `sk` as
/// strings.
pub open spec fn has_keys(row: JsonValue) -> bool {
    row matches JsonValue::Object(m) && field_str(m, "ak"@) is Some && field_str(m, "sk"@) is Some
}

/// The text of a string member of an account row.
pub open spec fn row_text(row: JsonValue, key: Seq<char>) -> Seq<char> {
    match row {
        JsonValue::Object(m) => match field_str(m, key) {
            Some(t) => t,
            None => Seq::empty(),
        },
        _ => Seq::empty(),
    }
}

/// Whether an event answers the work that the state waits for. Of the
/// accounts, the first one must carry its keys.
pub open spec fn event_fits(s: RunState, e: RunEvent) -> bool {
    match s {
        RunState::AwaitingAccounts { .. } => match e {
            RunEvent::Accounts(Ok(rows)) => rows.len() > 0 ==> has_keys(rows[0]),
            RunEvent::Accounts(Err(_)) => true,
            _ => false,
        },
        RunState::AwaitingOutput => e is Output,
        RunState::AwaitingParse { .. } => e is Parsed,
        RunState::Finished => false,
    }
}

/// Whether the action ends the run with an error answer of these parts.
pub open spec fn finishes_with_error(a: RunAction, code: u16, key: Seq<char>, msg: Seq<char>) -> bool {
    a matches RunAction::Finish(r) && (r matches Err(err) && err.is(code, key, Some(msg), 1))
}

/// The views of a list of texts.
pub open spec fn texts(v: Seq<String>) -> Seq<Seq<char>> {
    v.map_values(|t: String| t@)
}

/// What a step does with the text the script printed: parse it.
pub open spec fn parses(next: RunState, a: RunAction, text: Seq<char>) -> bool {
    &&& next matches RunState::AwaitingParse { output } && output@ == text
    &&& a matches RunAction::ParseJson(t) && t@ == text
}

/// The step of a run from a state on an event.
pub open spec fn is_step(s: RunState, e: RunEvent, next: RunState, a: RunAction) -> bool {
    match s {
        RunState::AwaitingAccounts { script_path, python_path, region, params, cloud_user } => match e {
            RunEvent::Accounts(Ok(rows)) => if rows.len() == 0 {
                &&& next is Finished
                &&& finishes_with_error(
                    a,
                    400,
                    "Service: run API script - get API Key"@,
                    "CAN NOT find cloud Auth Token: "@ + cloud_user@,
                )
            } else {
                &&& next is AwaitingOutput
                &&& a matches RunAction::RunProcess(call)
                &&& call.program@ == python_path@
                &&& texts(call.args@) == seq![
                    script_path@,
                    row_text(rows[0], "ak"@),
                    row_text(rows[0], "sk"@),
                    region@,
                    params@,
                ]
            },
            RunEvent::Accounts(Err(err)) => {
                &&& next is Finished
                &&& a matches RunAction::Finish(r)
                &&& r matches Err(x)
                &&& spec_failure(
                    x,
                    AnswerKeys::spec_single("Service: run API script - get API Key"),
                    FailureRule::BadRequestIsOne,
                    err,
                )
            },
            _ => false,
        },
        RunState::AwaitingOutput => match e {
            RunEvent::Output(Ok((stdout, stderr))) => if stdout@.len() > 0 {
                parses(next, a, stdout@)
            } else if stderr@.len() > 0 {
                parses(next, a, stderr@)
            } else {
                &&& next is Finished
                &&& finishes_with_error(a, 500, "Service: run API script"@, "Nothing in stdout"@)
            },
            RunEvent::Output(Err(m)) => {
                &&& next is Finished
                &&& finishes_with_error(a, 500, "Service: run API script"@, "Error: "@ + m@)
            },
            _ => false,
        },
        RunState::AwaitingParse { output } => match e {
            RunEvent::Parsed(Some(v)) => {
                &&& next is Finished
                &&& a matches RunAction::Finish(r)
                &&& r matches Ok(ok)
                &&& ok.code == 200
                &&& ok.key@ == "Service: run API script"@
                &&& ok.data == Some(v)
            },
            RunEvent::Parsed(None) => {
                &&& next is Finished
                &&& finishes_with_error(
                    a,
                    500,
                    "Service: run API script"@,
                    "Output JSON parse error: "@ + output@,
                )
            },
            _ => false,
        },
        RunState::Finished => false,
    }
}

/// Starts the run of the script that serves `api_name`, for the account of
/// `cloud_user`: the first work is the lookup of the accounts whose nick name
/// is the cloud user.
pub fn run(
    script_dir: &str,
    python_path: &str,
    api_name: &str,
    cloud_user: &str,
    region: &str,
    params: &str,
) -> (r: (RunState, RunAction))
    ensures
        r.0 matches RunState::AwaitingAccounts { script_path: p, python_path: py, region: rg, params: pa, cloud_user: cu }
            && p@ == spec_script_path(script_dir@, api_name@) && py@ == python_path@ && rg@ == region@
            && pa@ == params@ && cu@ == cloud_user@,
        r.1 matches RunAction::QueryAccounts(filter) && filter.entries@.len() == 1
            && filter.entries@[0].0@ == "nick_name"@ && filter.entries@[0].1.spec_as_str() == Some(cloud_user@)
            && filter.has_distinct_keys(),
{
    let mut filter = JsonMap::new();
    filter.push(owned("nick_name"), JsonValue::Str(owned(cloud_user)));
    let state = RunState::AwaitingAccounts {
        script_path: script_path(script_dir, api_name),
        python_path: owned(python_path),
        region: owned(region),
        params: owned(params),
        cloud_user: owned(cloud_user),
    };
    (state, RunAction::QueryAccounts(filter))
}

/// The keys `ak` and `sk` of an account row.
fn account_keys(row: &JsonValue) -> (r: (String, String))
    requires
        has_keys(*row),
    ensures
        r.0@ == row_text(*row, "ak"@),
        r.1@ == row_text(*row, "sk"@),
{
    match row {
        JsonValue::Object(m) => (get_str(m, "ak").unwrap(), get_str(m, "sk").unwrap()),
        _ => {
            proof {
                assert(false);
            }
            (String::new(), String::new())
        },
    }
}

/// The error that ends a run.
fn finish_error(code: u16, key: &str, msg: String) -> (r: (RunState, RunAction))
    ensures
        r.0 is Finished,
        finishes_with_error(r.1, code, key@, msg@),
{
    (RunState::Finished, RunAction::Finish(Err(MailManErr::new(code, key, Some(msg), 1))))
}

/// The text the script printed, to be parsed.
fn parse_next(text: String) -> (r: (RunState, RunAction))
    ensures
        parses(r.0, r.1, text@),
{
    let copy = text.clone();
    (RunState::AwaitingParse { output: text }, RunAction::ParseJson(copy))
}

/// Takes a run one step on: from what came back of the last work, the next
/// state and what is to be done. Every step brings the run nearer its end,
/// which it reaches within three steps, and the run is over exactly when the
/// action is its answer.
pub fn step(state: RunState, event: RunEvent) -> (r: (RunState, RunAction))
    requires
        event_fits(state, event),
    ensures
        is_step(state, event, r.0, r.1),
        remaining(r.0) < remaining(state),
        (r.0 is Finished) == (r.1 is Finish),
{
    match state {
        RunState::AwaitingAccounts { script_path, python_path, region, params, cloud_user } => match event {
            RunEvent::Accounts(Ok(rows)) => {
                if rows.len() == 0 {
                    let msg = concat2("CAN NOT find cloud Auth Token: ", cloud_user.as_str());
                    finish_error(400, "Service: run API script - get API Key", msg)
                } else {
                    let (ak, sk) = account_keys(&rows[0]);
                    let mut args: Vec<String> = Vec::new();
                    args.push(script_path);
                    args.push(ak);
                    args.push(sk);
                    args.push(region);
                    args.push(params);
                    let call = ScriptCall { program: python_path, args };
                    assert(texts(call.args@) =~= seq![
                        script_path@,
                        row_text(rows[0], "ak"@),
                        row_text(rows[0], "sk"@),
                        region@,
                        params@,
                    ]);
                    (RunState::AwaitingOutput, RunAction::RunProcess(call))
                }
            },
            RunEvent::Accounts(Err(e)) => {
                let keys = AnswerKeys::single("Service: run API script - get API Key");
                let err = failure(&keys, FailureRule::BadRequestIsOne, e);
                (RunState::Finished, RunAction::Finish(Err(err)))
            },
            _ => {
                proof {
                    assert(false);
                }
                (RunState::Finished, RunAction::ParseJson(String::new()))
            },
        },
        RunState::AwaitingOutput => match event {
            RunEvent::Output(Ok((stdout, stderr))) => {
                if stdout.as_str().unicode_len() > 0 {
                    parse_next(stdout)
                } else if stderr.as_str().unicode_len() > 0 {
                    parse_next(stderr)
                } else {
                    finish_error(500, "Service: run API script", owned("Nothing in stdout"))
                }
            },
            RunEvent::Output(Err(m)) => {
                let msg = concat2("Error: ", m.as_str());
                finish_error(500, "Service: run API script", msg)
            },
            _ => {
                proof {
                    assert(false);
                }
                (RunState::Finished, RunAction::ParseJson(String::new()))
            },
        },
        RunState::AwaitingParse { output } => match event {
            RunEvent::Parsed(Some(v)) => {
                let ok = MailManOk::new(200, "Service: run API script", Some(v));
                (RunState::Finished, RunAction::Finish(Ok(ok)))
            },
            RunEvent::Parsed(None) => {
                let msg = concat2("Output JSON parse error: ", output.as_str());
                finish_error(500, "Service: run API script", msg)
            },
            _ => {
                proof {
                    assert(false);
                }
                (RunState::Finished, RunAction::ParseJson(String::new()))
            },
        },
        RunState::Finished => {
            proof {
                assert(false);
            }
            (RunState::Finished, RunAction::ParseJson(String::new()))
        },
    }
}

/// The order of file names that a sort of Rust strings gives: by their
/// characters, one after the other, a prefix first. (UTF-8 keeps the order
/// of code points, so the bytes and the characters compare alike.)
pub open spec fn text_leq(a: Seq<char>, b: Seq<char>) -> bool
    decreases a.len(),
{
    if a.len() == 0 {
        true
    } else if b.len() == 0 {
        false
    } else if a[0] != b[0] {
        a[0] < b[0]
    } else {
        text_leq(a.drop_first(), b.drop_first())
    }
}

proof fn lemma_text_leq_reflexive(a: Seq<char>)
    ensures
        text_leq(a, a),
    decreases a.len(),
{
    if a.len() > 0 {
        lemma_text_leq_reflexive(a.drop_first());
    }
}

proof fn lemma_text_leq_antisymmetric(a: Seq<char>, b: Seq<char>)
    requires
        text_leq(a, b),
        text_leq(b, a),
    ensures
        a == b,
    decreases a.len(),
{
    if a.len() > 0 && b.len() > 0 {
        if a[0] == b[0] {
            lemma_text_leq_antisymmetric(a.drop_first(), b.drop_first());
            assert(a =~= seq![a[0]] + a.drop_first());
            assert(b =~= seq![b[0]] + b.drop_first());
        }
    } else {
        assert(a =~= b);
    }
}

proof fn lemma_text_leq_transitive(a: Seq<char>, b: Seq<char>, c: Seq<char>)
    requires
        text_leq(a, b),
        text_leq(b, c),
    ensures
        text_leq(a, c),
    decreases a.len(),
{
    if a.len() > 0 && b.len() > 0 && c.len() > 0 {
        if a[0] == b[0] && b[0] == c[0] {
            lemma_text_leq_transitive(a.drop_first(), b.drop_first(), c.drop_first());
        }
    }
}

proof fn lemma_text_leq_total(a: Seq<char>, b: Seq<char>)
    ensures
        text_leq(a, b) || text_leq(b, a),
    decreases a.len(),
{
    if a.len() > 0 && b.len() > 0 {
        if a[0] == b[0] {
            lemma_text_leq_total(a.drop_first(), b.drop_first());
        }
    }
}

/// The order of texts is total.
pub proof fn lemma_text_order()
    ensures
        total_ordering(|a: Seq<char>, b: Seq<char>| text_leq(a, b)),
{
    let leq = |a: Seq<char>, b: Seq<char>| text_leq(a, b);
    assert forall|a: Seq<char>| #[trigger] leq(a, a) by {
        lemma_text_leq_reflexive(a);
    }
    assert forall|a: Seq<char>, b: Seq<char>| #[trigger] leq(a, b) && #[trigger] leq(b, a) implies a == b by {
        lemma_text_leq_antisymmetric(a, b);
    }
    assert forall|a: Seq<char>, b: Seq<char>, c: Seq<char>|
        #[trigger] leq(a, b) && #[trigger] leq(b, c) implies leq(a, c) by {
        lemma_text_leq_transitive(a, b, c);
    }
    assert forall|a: Seq<char>, b: Seq<char>| #[trigger] leq(a, b) || leq(b, a) by {
        lemma_text_leq_total(a, b);
    }
}

/// Whether `a` comes before `b`, or is `b`, in the order of file names.
pub fn text_le(a: &str, b: &str) -> (r: bool)
    ensures
        r == text_leq(a@, b@),
{
    let n = a.unicode_len();
    let m = b.unicode_len();
    let mut i: usize = 0;
    assert(a@.skip(0) =~= a@);
    assert(b@.skip(0) =~= b@);
    while i < n && i < m
        invariant
            n == a@.len(),
            m == b@.len(),
            i <= n,
            i <= m,
            a@.take(i as int) =~= b@.take(i as int),
            text_leq(a@, b@) == text_leq(a@.skip(i as int), b@.skip(i as int)),
        decreases n - i,
    {
        let x = a.get_char(i);
        let y = b.get_char(i);
        assert(a@.skip(i as int)[0] == x);
        assert(b@.skip(i as int)[0] == y);
        if x != y {
            return x < y;
        }
        assert(a@.skip(i as int).drop_first() =~= a@.skip(i + 1));
        assert(b@.skip(i as int).drop_first() =~= b@.skip(i + 1));
        assert(a@.take(i + 1) =~= a@.take(i as int).push(x));
        assert(b@.take(i + 1) =~= b@.take(i as int).push(y));
        i = i + 1;
    }
    i == n
}

/// The names sorted in the order of file names.
pub open spec fn sorted_names(names: Seq<Seq<char>>) -> Seq<Seq<char>> {
    names.sort_by(|a: Seq<char>, b: Seq<char>| text_leq(a, b))
}

/// The names, each followed by a line break.
pub open spec fn lines_text(names: Seq<Seq<char>>) -> Seq<char>
    decreases names.len(),
{
    if names.len() == 0 {
        Seq::empty()
    } else {
        lines_text(names.drop_last()) + names.last() + seq!['\n']
    }
}

/// The names in the order of file names.
fn sort_names(names: Vec<String>) -> (r: Vec<String>)
    ensures
        texts(r@) == sorted_names(texts(names@)),
{
    let ghost leq = |a: Seq<char>, b: Seq<char>| text_leq(a, b);
    proof {
        lemma_text_order();
    }
    let mut sorted: Vec<String> = Vec::new();
    let mut i: usize = 0;
    assert(texts(sorted@) =~= texts(names@).take(0));
    while i < names.len()
        invariant
            i <= names.len(),
            total_ordering(leq),
            leq == (|a: Seq<char>, b: Seq<char>| text_leq(a, b)),
            sorted_by(texts(sorted@), leq),
            texts(sorted@).to_multiset() == texts(names@).take(i as int).to_multiset(),
        decreases names.len() - i,
    {
        let name = names[i].clone();
        let mut p: usize = 0;
        while p < sorted.len() && text_le(sorted[p].as_str(), name.as_str())
            invariant
                p <= sorted.len(),
                forall|k: int| 0 <= k < p ==> text_leq(#[trigger] texts(sorted@)[k], name@),
            decreases sorted.len() - p,
        {
            p = p + 1;
        }
        let ghost before = texts(sorted@);
        proof {
            if p < sorted.len() {
                lemma_text_leq_total(before[p as int], name@);
                assert forall|k: int| p <= k < before.len() implies text_leq(name@, #[trigger] before[k]) by {
                    assert(leq(before[p as int], before[k]));
                    lemma_text_leq_transitive(name@, before[p as int], before[k]);
                }
            }
        }
        sorted.insert(p, name);
        proof {
            assert(texts(sorted@) =~= before.insert(p as int, name@));
            let s = texts(sorted@);
            assert forall|a: int, b: int| 0 <= a < b < s.len() implies leq(#[trigger] s[a], #[trigger] s[b]) by {
                if a < p && b == p {
                } else if a < p && b > p {
                    assert(s[b] == before[b - 1]);
                    if p < before.len() {
                        assert(leq(before[p as int], before[b - 1]));
                        lemma_text_leq_transitive(s[a], name@, before[b - 1]);
                    }
                } else if a == p {
                    assert(s[b] == before[b - 1]);
                } else if b < p {
                    assert(leq(before[a], before[b]));
                } else {
                    assert(leq(before[a - 1], before[b - 1]));
                }
            }
            vstd::seq_lib::to_multiset_insert(before, p as int, name@);
            assert(texts(names@).take(i + 1) =~= texts(names@).take(i as int).push(name@));
            vstd::seq_lib::to_multiset_build(texts(names@).take(i as int), name@);
        }
        i = i + 1;
    }
    proof {
        assert(texts(names@).take(names.len() as int) =~= texts(names@));
        texts(names@).lemma_sort_by_ensures(leq);
        vstd::seq_lib::lemma_sorted_unique(texts(sorted@), sorted_names(texts(names@)), leq);
    }
    sorted
}

/// The directory that holds the scripts of a product of a provider.
pub fn product_dir(script_dir: &str, provider_name: &str, product_name: &str) -> (r: String)
    ensures
        r@ == script_dir@ + seq!['/'] + provider_name@ + seq!['/'] + product_name@,
{
    proof {
        reveal_strlit("/");
    }
    let mut r = String::from_str(script_dir);
    r.append("/");
    r.append(provider_name);
    r.append("/");
    r.append(product_name);
    r
}

/// The answer to a listing of the scripts of a product: the names of the
/// files in the product's directory, sorted, each on a line of its own. A
/// directory that cannot be read, or whose entries cannot, gives `Error: `
/// and the error's text; an empty one, `Nothing in stdout`.
pub fn get_scripts(listing: Result<Vec<String>, String>) -> (r: Result<MailManOk<JsonValue>, MailManErr>)
    ensures
        match listing {
            Err(e) => r matches Err(err) && err.is(
                500,
                "Service: get Product script"@,
                Some("Error: "@ + e@),
                1,
            ),
            Ok(names) => if names.len() == 0 {
                r matches Err(err) && err.is(500, "Service: get Product script"@, Some("Nothing in stdout"@), 1)
            } else {
                r matches Ok(ok) && ok.code == 200 && ok.key@ == "Get success"@ && (ok.data matches Some(
                    JsonValue::Str(t),
                ) && t@ == lines_text(sorted_names(texts(names@))))
            },
        },
{
    match listing {
        Err(e) => {
            let msg = concat2("Error: ", e.as_str());
            Err(MailManErr::new(500, "Service: get Product script", Some(msg), 1))
        },
        Ok(names) => {
            if names.len() == 0 {
                Err(MailManErr::new(500, "Service: get Product script", Some(owned("Nothing in stdout")), 1))
            } else {
                let sorted = sort_names(names);
                let mut text = String::new();
                let mut i: usize = 0;
                while i < sorted.len()
                    invariant
                        i <= sorted.len(),
                        text@ == lines_text(texts(sorted@).take(i as int)),
                    decreases sorted.len() - i,
                {
                    proof {
                        reveal_strlit("\n");
                    }
                    text.append(sorted[i].as_str());
                    text.append("\n");
                    assert(texts(sorted@).take(i + 1).drop_last() =~= texts(sorted@).take(i as int));
                    i = i + 1;
                }
                assert(texts(sorted@).take(sorted.len() as int) =~= texts(sorted@));
                Ok(MailManOk::new(200, "Get success", Some(JsonValue::Str(text))))
            }
        },
    }
}

} // verus!
