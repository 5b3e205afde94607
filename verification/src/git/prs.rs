//! Pull requests as GitHub CLI reports them: which a filter shows, in
//! which order, and how their status checks add up.
use vstd::prelude::*;

use crate::order::{desc_lt, sort_indices_desc, stably_sorted_desc};
use crate::json::{get_field, json_get, json_model, parse_json, parsed_json, text_member, text_of, Json, JsonModel};
use crate::text::{cat, owned, upper, uppercase};

verus! {

/// Which pull requests a list shows.
#[derive(Debug, Clone, Copy, PartialEq, Eq, Structural)]
pub enum PullRequestFilter {
    Open,
    Draft,
    Merged,
}

/// How a pull request is merged.
#[derive(Debug, Clone, Copy, PartialEq, Eq, Structural)]
pub enum PullRequestMergeMethod {
    Merge,
    Squash,
    Rebase,
}

/// One pull request of a `gh pr list` answer.
#[derive(Debug, Clone)]
pub struct PullRequestEntry {
    pub number: u64,
    pub title: String,
    pub state: String,
    pub is_draft: bool,
    pub head_ref_name: String,
    pub base_ref_name: String,
    pub author: String,
    pub url: String,
}

/// Mergeability, review decision and check counts of one pull request.
#[derive(Debug, Clone)]
pub struct PullRequestStatusSummary {
    pub merge_state_status: Option<String>,
    pub review_decision: Option<String>,
    pub checks_total: usize,
    pub checks_passing: usize,
    pub checks_failing: usize,
    pub checks_pending: usize,
}

/// The text fields of one entry of `statusCheckRollup`: `state`, `status`
/// and `conclusion`, each when it is a string.
#[derive(Debug, Clone)]
pub struct CheckRun {
    pub state: Option<String>,
    pub status: Option<String>,
    pub conclusion: Option<String>,
}

pub type PullRequestView = (u64, Seq<char>, Seq<char>, bool, Seq<char>, Seq<char>, Seq<char>, Seq<char>);

pub open spec fn pr_view(p: PullRequestEntry) -> PullRequestView {
    (p.number, p.title@, p.state@, p.is_draft, p.head_ref_name@, p.base_ref_name@, p.author@, p.url@)
}

pub open spec fn prs_view(v: Seq<PullRequestEntry>) -> Seq<PullRequestView> {
    v.map_values(|p: PullRequestEntry| pr_view(p))
}

/// Whether a filter shows a pull request: open ones that are no drafts,
/// drafts, or (merged list) all.
pub open spec fn filter_keeps(f: PullRequestFilter, is_draft: bool) -> bool {
    match f {
        PullRequestFilter::Open => !is_draft,
        PullRequestFilter::Draft => is_draft,
        PullRequestFilter::Merged => true,
    }
}

/// The pull requests of `v` that `f` shows, in their order.
pub open spec fn kept_prs(v: Seq<PullRequestView>, f: PullRequestFilter) -> Seq<PullRequestView>
    decreases v.len(),
{
    if v.len() == 0 {
        Seq::empty()
    } else if filter_keeps(f, v.last().3) {
        kept_prs(v.drop_last(), f).push(v.last())
    } else {
        kept_prs(v.drop_last(), f)
    }
}

pub open spec fn pr_numbers(v: Seq<PullRequestView>) -> Seq<u64> {
    v.map_values(|p: PullRequestView| p.0)
}

/// The elements of `v` at the positions `idx`, in that order.
pub open spec fn pick(v: Seq<PullRequestView>, idx: Seq<usize>) -> Seq<PullRequestView> {
    idx.map_values(|i: usize| v[i as int])
}

/// The text that classifies a check: `state`, else `status`, else
/// `conclusion`, upper-cased; empty when none is given.
pub open spec fn check_state(c: (Option<Seq<char>>, Option<Seq<char>>, Option<Seq<char>>)) -> Seq<char> {
    upper(
        match c.0 {
            Some(s) => s,
            None => match c.1 {
                Some(s) => s,
                None => match c.2 {
                    Some(s) => s,
                    None => Seq::empty(),
                },
            },
        },
    )
}

pub open spec fn passing_states() -> Seq<Seq<char>> {
    seq!["SUCCESS"@, "EXPECTED"@, "NEUTRAL"@, "SKIPPED"@]
}

pub open spec fn failing_states() -> Seq<Seq<char>> {
    seq![
        "FAILURE"@,
        "ERROR"@,
        "CANCELLED"@,
        "TIMED_OUT"@,
        "ACTION_REQUIRED"@,
        "STALE"@,
        "STARTUP_FAILURE"@,
    ]
}

pub open spec fn opt_view(o: Option<String>) -> Option<Seq<char>> {
    match o {
        Some(s) => Some(s@),
        None => None,
    }
}

pub open spec fn check_view(c: CheckRun) -> (Option<Seq<char>>, Option<Seq<char>>, Option<Seq<char>>) {
    (opt_view(c.state), opt_view(c.status), opt_view(c.conclusion))
}

/// Counts (total, passing, failing, pending) of the checks whose state is not empty.
pub open spec fn check_counts(
    cs: Seq<(Option<Seq<char>>, Option<Seq<char>>, Option<Seq<char>>)>,
) -> (nat, nat, nat, nat)
    decreases cs.len(),
{
    if cs.len() == 0 {
        (0, 0, 0, 0)
    } else {
        let prev = check_counts(cs.drop_last());
        let st = check_state(cs.last());
        if st.len() == 0 {
            prev
        } else if passing_states().contains(st) {
            (prev.0 + 1, prev.1 + 1, prev.2, prev.3)
        } else if failing_states().contains(st) {
            (prev.0 + 1, prev.1, prev.2 + 1, prev.3)
        } else {
            (prev.0 + 1, prev.1, prev.2, prev.3 + 1)
        }
    }
}

fn copy_pr(p: &PullRequestEntry) -> (res: PullRequestEntry)
    ensures
        pr_view(res) == pr_view(*p),
{
    PullRequestEntry {
        number: p.number,
        title: p.title.clone(),
        state: p.state.clone(),
        is_draft: p.is_draft,
        head_ref_name: p.head_ref_name.clone(),
        base_ref_name: p.base_ref_name.clone(),
        author: p.author.clone(),
        url: p.url.clone(),
    }
}

/// The pull requests of a `gh pr list` answer that `filter` shows,
/// newest (highest number) first; equal numbers keep their order.
pub fn pull_requests(entries: &Vec<PullRequestEntry>, filter: PullRequestFilter) -> (res: Vec<
    PullRequestEntry,
>)
    ensures
        ({
            let kept = kept_prs(prs_view(entries@), filter);
            exists|idx: Seq<usize>|
                #[trigger] stably_sorted_desc(pr_numbers(kept), idx) && prs_view(res@) == pick(
                    kept,
                    idx,
                )
        }),
        forall|i: int, j: int| 0 <= i < j < res@.len() ==> (#[trigger] res@[i]).number >= (#[trigger] res@[j]).number,
        forall|i: int|
            0 <= i < res@.len() ==> (filter == PullRequestFilter::Draft ==> (#[trigger] res@[i]).is_draft) && (filter
                == PullRequestFilter::Open ==> !res@[i].is_draft),
{
    let ghost all = prs_view(entries@);
    let mut kept: Vec<PullRequestEntry> = Vec::new();
    let mut i: usize = 0;
    while i < entries.len()
        invariant
            i <= entries.len(),
            all == prs_view(entries@),
            prs_view(kept@) == kept_prs(all.take(i as int), filter),
        decreases entries.len() - i,
    {
        assert(all.take(i + 1).drop_last() =~= all.take(i as int));
        assert(all.take(i + 1).last() == pr_view(entries@[i as int]));
        let keep = match filter {
            PullRequestFilter::Open => !entries[i].is_draft,
            PullRequestFilter::Draft => entries[i].is_draft,
            PullRequestFilter::Merged => true,
        };
        if keep {
            let c = copy_pr(&entries[i]);
            let ghost before = kept@;
            kept.push(c);
            assert(prs_view(kept@) =~= prs_view(before).push(pr_view(c)));
        }
        i = i + 1;
    }
    assert(all.take(i as int) =~= all);
    let ghost kv = prs_view(kept@);
    let mut nums: Vec<u64> = Vec::new();
    let mut j: usize = 0;
    while j < kept.len()
        invariant
            j <= kept.len(),
            kv == prs_view(kept@),
            nums@ == kv.take(j as int).map_values(|p: PullRequestView| p.0),
        decreases kept.len() - j,
    {
        nums.push(kept[j].number);
        assert(kv.take(j + 1).map_values(|p: PullRequestView| p.0) =~= kv.take(j as int).map_values(
            |p: PullRequestView| p.0,
        ).push(kv[j as int].0));
        j = j + 1;
    }
    assert(kv.take(j as int) =~= kv);
    let order = sort_indices_desc(&nums);
    let mut res: Vec<PullRequestEntry> = Vec::new();
    let mut k: usize = 0;
    while k < order.len()
        invariant
            k <= order.len(),
            kv == prs_view(kept@),
            stably_sorted_desc(nums@, order@),
            nums@.len() == kept.len(),
            prs_view(res@) == order@.take(k as int).map_values(|i: usize| kv[i as int]),
        decreases order.len() - k,
    {
        let idx = order[k];
        assert((order@[k as int] as int) < nums@.len());
        let c = copy_pr(&kept[idx]);
        let ghost before = res@;
        res.push(c);
        assert(prs_view(res@) =~= prs_view(before).push(pr_view(c)));
        assert(order@.take(k + 1).map_values(|i: usize| kv[i as int]) =~= order@.take(
            k as int,
        ).map_values(|i: usize| kv[i as int]).push(kv[idx as int]));
        k = k + 1;
    }
    assert(order@.take(k as int) =~= order@);
    assert(nums@ =~= pr_numbers(kv));
    assert(stably_sorted_desc(pr_numbers(kv), order@));
    assert(prs_view(res@) =~= pick(kv, order@));
    proof {
        law_shown_pull_requests(all, filter, order@);
        assert forall|i: int, j: int| 0 <= i < j < res@.len() implies (#[trigger] res@[i]).number >= (
        #[trigger] res@[j]).number by {
            assert(prs_view(res@)[i] == pr_view(res@[i]));
            assert(prs_view(res@)[j] == pr_view(res@[j]));
        }
        assert forall|i: int| 0 <= i < res@.len() implies (filter == PullRequestFilter::Draft ==> (
        #[trigger] res@[i]).is_draft) && (filter == PullRequestFilter::Open ==> !res@[i].is_draft) by {
            assert(prs_view(res@)[i] == pr_view(res@[i]));
        }
    }
    res
}

fn state_in(st: &str, list: &Vec<&str>) -> (res: bool)
    ensures
        res == list@.map_values(|s: &str| s@).contains(st@),
{
    let mut i: usize = 0;
    while i < list.len()
        invariant
            i <= list.len(),
            forall|k: int| 0 <= k < i ==> list@[k]@ != st@,
        decreases list.len() - i,
    {
        if crate::text::str_eq(st, list[i]) {
            assert(list@.map_values(|s: &str| s@)[i as int] == st@);
            return true;
        }
        i = i + 1;
    }
    proof {
        if list@.map_values(|s: &str| s@).contains(st@) {
            let m = list@.map_values(|s: &str| s@);
            let k = choose|k: int| 0 <= k < m.len() && #[trigger] m[k] == st@;
            assert(list@[k]@ == st@);
        }
    }
    false
}

fn opt_clone(o: &Option<String>) -> (res: Option<String>)
    ensures
        opt_view(res) == opt_view(*o),
{
    match o {
        Some(s) => Some(s.clone()),
        None => None,
    }
}

/// The summary of a `gh pr view --json mergeStateStatus,reviewDecision,statusCheckRollup`
/// answer: the two texts as given, and the checks counted by their state
/// (checks without a state are left out).
pub fn pull_request_status_summary(
    merge_state_status: Option<String>,
    review_decision: Option<String>,
    checks: Option<Vec<CheckRun>>,
) -> (res: PullRequestStatusSummary)
    ensures
        opt_view(res.merge_state_status) == opt_view(merge_state_status),
        opt_view(res.review_decision) == opt_view(review_decision),
        (res.checks_total as nat, res.checks_passing as nat, res.checks_failing as nat, res.checks_pending as nat)
            == match checks {
            Some(cs) => check_counts(cs@.map_values(|c: CheckRun| check_view(c))),
            None => (0, 0, 0, 0),
        },
        res.checks_passing + res.checks_failing + res.checks_pending == res.checks_total,
        res.checks_total == match checks {
            Some(cs) => stated_checks(cs@.map_values(|c: CheckRun| check_view(c))).len(),
            None => 0,
        },
{
    let mut total: usize = 0;
    let mut passing: usize = 0;
    let mut failing: usize = 0;
    let mut pending: usize = 0;
    let passing_list = vec!["SUCCESS", "EXPECTED", "NEUTRAL", "SKIPPED"];
    let failing_list = vec![
        "FAILURE",
        "ERROR",
        "CANCELLED",
        "TIMED_OUT",
        "ACTION_REQUIRED",
        "STALE",
        "STARTUP_FAILURE",
    ];
    assert(passing_list@.map_values(|s: &str| s@) =~= passing_states());
    assert(failing_list@.map_values(|s: &str| s@) =~= failing_states());
    match &checks {
        Some(cs) => {
            let ghost cv = cs@.map_values(|c: CheckRun| check_view(c));
            let mut i: usize = 0;
            while i < cs.len()
                invariant
                    i <= cs.len(),
                    cv == cs@.map_values(|c: CheckRun| check_view(c)),
                    passing_list@.map_values(|s: &str| s@) == passing_states(),
                    failing_list@.map_values(|s: &str| s@) == failing_states(),
                    total <= i,
                    (total as nat, passing as nat, failing as nat, pending as nat) == check_counts(
                        cv.take(i as int),
                    ),
                decreases cs.len() - i,
            {
                assert(cv.take(i + 1).drop_last() =~= cv.take(i as int));
                assert(cv.take(i + 1).last() == check_view(cs@[i as int]));
                let c = &cs[i];
                let raw = match &c.state {
                    Some(s) => s.clone(),
                    None => match &c.status {
                        Some(s) => s.clone(),
                        None => match &c.conclusion {
                            Some(s) => s.clone(),
                            None => String::new(),
                        },
                    },
                };
                let st = uppercase(raw.as_str());
                proof {
                    law_check_counts_add_up(cv.take(i as int));
                }
                if st.as_str().unicode_len() > 0 {
                    total = total + 1;
                    if state_in(st.as_str(), &passing_list) {
                        passing = passing + 1;
                    } else if state_in(st.as_str(), &failing_list) {
                        failing = failing + 1;
                    } else {
                        pending = pending + 1;
                    }
                }
                i = i + 1;
            }
            assert(cv.take(i as int) =~= cv);
        },
        None => {},
    }
    proof {
        match checks {
            Some(cs) => law_check_counts_add_up(cs@.map_values(|c: CheckRun| check_view(c))),
            None => {},
        }
    }
    PullRequestStatusSummary {
        merge_state_status: opt_clone(&merge_state_status),
        review_decision: opt_clone(&review_decision),
        checks_total: total,
        checks_passing: passing,
        checks_failing: failing,
        checks_pending: pending,
    }
}

/// The texts a check entry of `statusCheckRollup` gives: its `state`,
/// `status` and `conclusion`, each where it is a string.
pub open spec fn check_of(e: JsonModel) -> (Option<Seq<char>>, Option<Seq<char>>, Option<Seq<char>>) {
    (text_of(get_field(e, "state"@)), text_of(get_field(e, "status"@)), text_of(get_field(e, "conclusion"@)))
}

/// The check entries of a `gh pr view` answer, where `statusCheckRollup`
/// is an array.
pub open spec fn rollup_of(v: JsonModel) -> Option<Seq<(Option<Seq<char>>, Option<Seq<char>>, Option<Seq<char>>)>> {
    match get_field(v, "statusCheckRollup"@) {
        Some(JsonModel::Array(items)) => Some(items.map_values(|e: JsonModel| check_of(e))),
        _ => None,
    }
}

pub open spec fn pr_view_parse_failure(e: Seq<char>) -> Seq<char> {
    "Failed to parse `gh pr view` output: "@ + e
}

/// The summary of the raw answer of `gh pr view --json
/// mergeStateStatus,reviewDecision,statusCheckRollup`: an error exactly
/// when the answer is not JSON; else the two texts, where they are strings,
/// and the checks of `statusCheckRollup`, where it is an array, counted by
/// their state.
pub fn parse_pull_request_status_summary(raw: &str) -> (res: Result<PullRequestStatusSummary, String>)
    ensures
        match parsed_json(raw@) {
            Err(e) => res matches Err(m) && m@ == pr_view_parse_failure(e),
            Ok(v) => res matches Ok(s) && {
                &&& opt_view(s.merge_state_status) == text_of(get_field(v, "mergeStateStatus"@))
                &&& opt_view(s.review_decision) == text_of(get_field(v, "reviewDecision"@))
                &&& (s.checks_total as nat, s.checks_passing as nat, s.checks_failing as nat, s.checks_pending as nat)
                    == match rollup_of(v) {
                    Some(cs) => check_counts(cs),
                    None => (0, 0, 0, 0),
                }
                &&& s.checks_passing + s.checks_failing + s.checks_pending == s.checks_total
            },
        },
{
    let value = match parse_json(raw) {
        Ok(v) => v,
        Err(e) => {
            return Err(cat("Failed to parse `gh pr view` output: ", e.as_str()));
        },
    };
    let merge_state_status = text_member(&value, "mergeStateStatus");
    let review_decision = text_member(&value, "reviewDecision");
    let checks: Option<Vec<CheckRun>> = match json_get(&value, "statusCheckRollup") {
        Some(Json::Array(items)) => {
            let ghost model_items = match json_model(Json::Array(*items)) {
                JsonModel::Array(m) => m,
                _ => Seq::empty(),
            };
            let ghost want = model_items.map_values(|e: JsonModel| check_of(e));
            let mut runs: Vec<CheckRun> = Vec::new();
            let mut i: usize = 0;
            while i < items.len()
                invariant
                    i <= items.len(),
                    model_items.len() == items@.len(),
                    forall|j: int| 0 <= j < items@.len() ==> #[trigger] model_items[j] == json_model(items@[j]),
                    want == model_items.map_values(|e: JsonModel| check_of(e)),
                    runs@.len() == i,
                    forall|j: int| 0 <= j < i ==> check_view(#[trigger] runs@[j]) == want[j],
                decreases items.len() - i,
            {
                let run = CheckRun {
                    state: text_member(&items[i], "state"),
                    status: text_member(&items[i], "status"),
                    conclusion: text_member(&items[i], "conclusion"),
                };
                runs.push(run);
                i = i + 1;
            }
            assert(runs@.map_values(|c: CheckRun| check_view(c)) =~= want);
            Some(runs)
        },
        _ => None,
    };
    Ok(pull_request_status_summary(merge_state_status, review_decision, checks))
}


proof fn lemma_state_literals()
    ensures
        "SUCCESS"@ != "FAILURE"@ && "SUCCESS"@ != "ERROR"@ && "SUCCESS"@ != "CANCELLED"@ && "SUCCESS"@ != "TIMED_OUT"@
            && "SUCCESS"@ != "ACTION_REQUIRED"@ && "SUCCESS"@ != "STALE"@ && "SUCCESS"@ != "STARTUP_FAILURE"@,
        "EXPECTED"@ != "FAILURE"@ && "EXPECTED"@ != "ERROR"@ && "EXPECTED"@ != "CANCELLED"@ && "EXPECTED"@
            != "TIMED_OUT"@ && "EXPECTED"@ != "ACTION_REQUIRED"@ && "EXPECTED"@ != "STALE"@ && "EXPECTED"@
            != "STARTUP_FAILURE"@,
        "NEUTRAL"@ != "FAILURE"@ && "NEUTRAL"@ != "ERROR"@ && "NEUTRAL"@ != "CANCELLED"@ && "NEUTRAL"@ != "TIMED_OUT"@
            && "NEUTRAL"@ != "ACTION_REQUIRED"@ && "NEUTRAL"@ != "STALE"@ && "NEUTRAL"@ != "STARTUP_FAILURE"@,
        "SKIPPED"@ != "FAILURE"@ && "SKIPPED"@ != "ERROR"@ && "SKIPPED"@ != "CANCELLED"@ && "SKIPPED"@ != "TIMED_OUT"@
            && "SKIPPED"@ != "ACTION_REQUIRED"@ && "SKIPPED"@ != "STALE"@ && "SKIPPED"@ != "STARTUP_FAILURE"@,
        "FAILURE"@.len() > 0 && "ERROR"@.len() > 0 && "CANCELLED"@.len() > 0 && "TIMED_OUT"@.len() > 0
            && "ACTION_REQUIRED"@.len() > 0 && "STALE"@.len() > 0 && "STARTUP_FAILURE"@.len() > 0,
        "SUCCESS"@.len() > 0 && "EXPECTED"@.len() > 0 && "NEUTRAL"@.len() > 0 && "SKIPPED"@.len() > 0,
{
    reveal_strlit("SUCCESS");
    reveal_strlit("EXPECTED");
    reveal_strlit("NEUTRAL");
    reveal_strlit("SKIPPED");
    reveal_strlit("FAILURE");
    reveal_strlit("ERROR");
    reveal_strlit("CANCELLED");
    reveal_strlit("TIMED_OUT");
    reveal_strlit("ACTION_REQUIRED");
    reveal_strlit("STALE");
    reveal_strlit("STARTUP_FAILURE");
    assert("SUCCESS"@[0] != "FAILURE"@[0]);
    assert("SUCCESS"@[0] != "ERROR"@[0]);
    assert("SUCCESS"@[0] != "CANCELLED"@[0]);
    assert("SUCCESS"@[0] != "TIMED_OUT"@[0]);
    assert("SUCCESS"@[0] != "ACTION_REQUIRED"@[0]);
    assert("SUCCESS"@.len() != "STALE"@.len());
    assert("SUCCESS"@.len() != "STARTUP_FAILURE"@.len());
    assert("EXPECTED"@[0] != "FAILURE"@[0]);
    assert("EXPECTED"@[1] != "ERROR"@[1]);
    assert("EXPECTED"@[0] != "CANCELLED"@[0]);
    assert("EXPECTED"@[0] != "TIMED_OUT"@[0]);
    assert("EXPECTED"@[0] != "ACTION_REQUIRED"@[0]);
    assert("EXPECTED"@[0] != "STALE"@[0]);
    assert("EXPECTED"@[0] != "STARTUP_FAILURE"@[0]);
    assert("NEUTRAL"@[0] != "FAILURE"@[0]);
    assert("NEUTRAL"@[0] != "ERROR"@[0]);
    assert("NEUTRAL"@[0] != "CANCELLED"@[0]);
    assert("NEUTRAL"@[0] != "TIMED_OUT"@[0]);
    assert("NEUTRAL"@[0] != "ACTION_REQUIRED"@[0]);
    assert("NEUTRAL"@[0] != "STALE"@[0]);
    assert("NEUTRAL"@[0] != "STARTUP_FAILURE"@[0]);
    assert("SKIPPED"@[0] != "FAILURE"@[0]);
    assert("SKIPPED"@[0] != "ERROR"@[0]);
    assert("SKIPPED"@[0] != "CANCELLED"@[0]);
    assert("SKIPPED"@[0] != "TIMED_OUT"@[0]);
    assert("SKIPPED"@[0] != "ACTION_REQUIRED"@[0]);
    assert("SKIPPED"@[1] != "STALE"@[1]);
    assert("SKIPPED"@[1] != "STARTUP_FAILURE"@[1]);
}

/// A check whose state, upper-cased, is FAILURE, ERROR, CANCELLED,
/// TIMED_OUT, ACTION_REQUIRED, STALE or STARTUP_FAILURE counts once in the
/// total and once as failing, whatever the checks before it.
pub proof fn law_failed_checks_count_as_failing(
    cs: Seq<(Option<Seq<char>>, Option<Seq<char>>, Option<Seq<char>>)>,
    c: (Option<Seq<char>>, Option<Seq<char>>, Option<Seq<char>>),
)
    requires
        check_state(c) == "FAILURE"@ || check_state(c) == "ERROR"@ || check_state(c) == "CANCELLED"@ || check_state(c)
            == "TIMED_OUT"@ || check_state(c) == "ACTION_REQUIRED"@ || check_state(c) == "STALE"@ || check_state(c)
            == "STARTUP_FAILURE"@,
    ensures
        check_counts(cs.push(c)) == (
            check_counts(cs).0 + 1,
            check_counts(cs).1,
            check_counts(cs).2 + 1,
            check_counts(cs).3,
        ),
{
    lemma_state_literals();
    let st = check_state(c);
    assert(cs.push(c).drop_last() =~= cs);
    assert(!passing_states().contains(st)) by {
        if passing_states().contains(st) {
            let k = choose|k: int| 0 <= k < passing_states().len() && passing_states()[k] == st;
            assert(k == 0 || k == 1 || k == 2 || k == 3);
        }
    }
    assert(failing_states().contains(st)) by {
        if st == "FAILURE"@ {
            assert(failing_states()[0] == st);
        } else if st == "ERROR"@ {
            assert(failing_states()[1] == st);
        } else if st == "CANCELLED"@ {
            assert(failing_states()[2] == st);
        } else if st == "TIMED_OUT"@ {
            assert(failing_states()[3] == st);
        } else if st == "ACTION_REQUIRED"@ {
            assert(failing_states()[4] == st);
        } else if st == "STALE"@ {
            assert(failing_states()[5] == st);
        } else {
            assert(failing_states()[6] == st);
        }
    }
}

/// A check whose state, upper-cased, is SUCCESS, EXPECTED, NEUTRAL or
/// SKIPPED counts once in the total and once as passing.
pub proof fn law_passed_checks_count_as_passing(
    cs: Seq<(Option<Seq<char>>, Option<Seq<char>>, Option<Seq<char>>)>,
    c: (Option<Seq<char>>, Option<Seq<char>>, Option<Seq<char>>),
)
    requires
        check_state(c) == "SUCCESS"@ || check_state(c) == "EXPECTED"@ || check_state(c) == "NEUTRAL"@ || check_state(c)
            == "SKIPPED"@,
    ensures
        check_counts(cs.push(c)) == (
            check_counts(cs).0 + 1,
            check_counts(cs).1 + 1,
            check_counts(cs).2,
            check_counts(cs).3,
        ),
{
    lemma_state_literals();
    let st = check_state(c);
    assert(cs.push(c).drop_last() =~= cs);
    assert(passing_states().contains(st)) by {
        if st == "SUCCESS"@ {
            assert(passing_states()[0] == st);
        } else if st == "EXPECTED"@ {
            assert(passing_states()[1] == st);
        } else if st == "NEUTRAL"@ {
            assert(passing_states()[2] == st);
        } else {
            assert(passing_states()[3] == st);
        }
    }
}

/// A check with any other non-empty state counts once in the total and
/// once as pending; a check with no state is not counted.
pub proof fn law_other_checks_count_as_pending(
    cs: Seq<(Option<Seq<char>>, Option<Seq<char>>, Option<Seq<char>>)>,
    c: (Option<Seq<char>>, Option<Seq<char>>, Option<Seq<char>>),
)
    ensures
        check_state(c).len() == 0 ==> check_counts(cs.push(c)) == check_counts(cs),
        check_state(c).len() > 0 && check_state(c) != "SUCCESS"@ && check_state(c) != "EXPECTED"@ && check_state(c)
            != "NEUTRAL"@ && check_state(c) != "SKIPPED"@ && check_state(c) != "FAILURE"@ && check_state(c) != "ERROR"@
            && check_state(c) != "CANCELLED"@ && check_state(c) != "TIMED_OUT"@ && check_state(c) != "ACTION_REQUIRED"@
            && check_state(c) != "STALE"@ && check_state(c) != "STARTUP_FAILURE"@ ==> check_counts(cs.push(c)) == (
            check_counts(cs).0 + 1,
            check_counts(cs).1,
            check_counts(cs).2,
            check_counts(cs).3 + 1,
        ),
{
    let st = check_state(c);
    assert(cs.push(c).drop_last() =~= cs);
    if passing_states().contains(st) {
        let k = choose|k: int| 0 <= k < passing_states().len() && passing_states()[k] == st;
        assert(k == 0 || k == 1 || k == 2 || k == 3);
    }
    if failing_states().contains(st) {
        let k = choose|k: int| 0 <= k < failing_states().len() && failing_states()[k] == st;
        assert(k == 0 || k == 1 || k == 2 || k == 3 || k == 4 || k == 5 || k == 6);
    }
}

proof fn lemma_kept_drafts(v: Seq<PullRequestView>, f: PullRequestFilter)
    ensures
        forall|i: int|
            0 <= i < kept_prs(v, f).len() ==> (f == PullRequestFilter::Draft ==> (#[trigger] kept_prs(v, f)[i]).3)
                && (f == PullRequestFilter::Open ==> !kept_prs(v, f)[i].3),
        f == PullRequestFilter::Merged ==> kept_prs(v, f) == v,
        kept_prs(v, f).len() <= v.len(),
        forall|x: PullRequestView|
            #[trigger] v.contains(x) && (f == PullRequestFilter::Merged || (f == PullRequestFilter::Draft) == x.3)
                ==> kept_prs(v, f).contains(x),
    decreases v.len(),
{
    if v.len() > 0 {
        let init = v.drop_last();
        lemma_kept_drafts(init, f);
        let k = kept_prs(init, f);
        if f == PullRequestFilter::Merged {
            assert(v =~= init.push(v.last()));
        }
        assert forall|x: PullRequestView|
            #[trigger] v.contains(x) && (f == PullRequestFilter::Merged || (f == PullRequestFilter::Draft) == x.3)
                implies kept_prs(v, f).contains(x) by {
            let j = choose|j: int| 0 <= j < v.len() && v[j] == x;
            if j < v.len() - 1 {
                assert(init[j] == x);
                assert(init.contains(x));
                let m = choose|m: int| 0 <= m < k.len() && k[m] == x;
                if filter_keeps(f, v.last().3) {
                    assert(k.push(v.last())[m] == x);
                }
            } else {
                assert(kept_prs(v, f) == k.push(v.last()));
                assert(k.push(v.last())[k.len() as int] == x);
            }
        }
    }
}

/// The list a filter shows: newest first (numbers never increase down the
/// list); only drafts under Draft, no drafts under Open, everything under
/// Merged; and every pull request the filter admits is in it.
pub proof fn law_shown_pull_requests(v: Seq<PullRequestView>, f: PullRequestFilter, idx: Seq<usize>)
    requires
        v.len() <= usize::MAX,
        stably_sorted_desc(pr_numbers(kept_prs(v, f)), idx),
    ensures
        forall|i: int, j: int|
            0 <= i < j < pick(kept_prs(v, f), idx).len() ==> (#[trigger] pick(kept_prs(v, f), idx)[i]).0
                >= (#[trigger] pick(kept_prs(v, f), idx)[j]).0,
        forall|i: int|
            0 <= i < pick(kept_prs(v, f), idx).len() ==> (f == PullRequestFilter::Draft ==> (#[trigger] pick(
                kept_prs(v, f),
                idx,
            )[i]).3) && (f == PullRequestFilter::Open ==> !pick(kept_prs(v, f), idx)[i].3),
        forall|x: PullRequestView|
            #[trigger] v.contains(x) && (f == PullRequestFilter::Merged || (f == PullRequestFilter::Draft) == x.3)
                ==> pick(kept_prs(v, f), idx).contains(x),
{
    let k = kept_prs(v, f);
    let r = pick(k, idx);
    lemma_kept_drafts(v, f);
    assert forall|i: int, j: int| 0 <= i < j < r.len() implies (#[trigger] r[i]).0 >= (#[trigger] r[j]).0 by {
        assert(desc_lt(pr_numbers(k), idx[i], idx[j]));
    }
    assert forall|i: int| 0 <= i < r.len() implies (f == PullRequestFilter::Draft ==> (#[trigger] r[i]).3) && (f
        == PullRequestFilter::Open ==> !r[i].3) by {
        assert((idx[i] as int) < k.len());
    }
    assert forall|x: PullRequestView|
        #[trigger] v.contains(x) && (f == PullRequestFilter::Merged || (f == PullRequestFilter::Draft) == x.3)
            implies r.contains(x) by {
        let m = choose|m: int| 0 <= m < k.len() && k[m] == x;
        crate::order::lemma_index_order_covers(idx, k.len() as int, m);
        let t = choose|t: int| 0 <= t < idx.len() && idx[t] as int == m;
        assert(r[t] == x);
    }
}

/// The checks that count: those whose state is not empty.
pub open spec fn stated_checks(
    cs: Seq<(Option<Seq<char>>, Option<Seq<char>>, Option<Seq<char>>)>,
) -> Seq<(Option<Seq<char>>, Option<Seq<char>>, Option<Seq<char>>)> {
    cs.filter(|c: (Option<Seq<char>>, Option<Seq<char>>, Option<Seq<char>>)| check_state(c).len() > 0)
}

/// The passing, failing and pending checks add up to the total, and the
/// total is the number of checks whose state is not empty (so at most the
/// number of checks).
pub proof fn law_check_counts_add_up(cs: Seq<(Option<Seq<char>>, Option<Seq<char>>, Option<Seq<char>>)>)
    ensures
        check_counts(cs).0 <= cs.len(),
        check_counts(cs).1 + check_counts(cs).2 + check_counts(cs).3 == check_counts(cs).0,
        check_counts(cs).0 == stated_checks(cs).len(),
    decreases cs.len(),
{
    if cs.len() > 0 {
        law_check_counts_add_up(cs.drop_last());
        let f = |c: (Option<Seq<char>>, Option<Seq<char>>, Option<Seq<char>>)| check_state(c).len() > 0;
        assert(stated_checks(cs) == cs.filter(f));
        assert(stated_checks(cs.drop_last()) == cs.drop_last().filter(f));
        reveal_with_fuel(Seq::filter, 1);
        assert(cs.filter(f) == if f(cs.last()) {
            cs.drop_last().filter(f).push(cs.last())
        } else {
            cs.drop_last().filter(f)
        });
    } else {
        reveal_with_fuel(Seq::filter, 1);
        assert(stated_checks(cs).len() == 0);
    }
}

} // verus!
