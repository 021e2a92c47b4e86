//! Attachment selection: first-match scanning of the candidates in mailbox
//! traversal order, and the freshness gate against the stored instant.

use vstd::prelude::*;

use crate::pattern::spec_name_matches;
use crate::pattern::name_matches_pattern;

verus! {

/// One attachment seen during traversal: its name and the instant of the
/// message that carried it.
pub struct Candidate {
    pub name: Vec<u8>,
    pub instant: i64,
}

/// What the selection step decided.
#[derive(Clone, Copy, Debug, PartialEq, Eq, Structural)]
pub enum SelectionOutcome {
    /// The first matching candidate is fresh enough; its position and
    /// instant become the run's new last-update value.
    Accepted { index: usize, instant: i64 },
    /// The first matching candidate is older than the stored instant: the
    /// data is already current and the run must stop.
    Rejected,
    /// No candidate name matches the naming pattern.
    NotFound,
}

/// `i` is the first candidate whose name matches the pattern.
pub open spec fn spec_first_match(cands: Seq<Candidate>, i: int) -> bool {
    &&& 0 <= i < cands.len()
    &&& spec_name_matches(cands[i].name@)
    &&& forall|j: int| 0 <= j < i ==> !spec_name_matches(#[trigger] cands[j].name@)
}

/// The selection and gate decision over the candidates in traversal order:
/// scan for the first matching name; accept it when there is no stored
/// instant or its instant is at least the stored one, otherwise reject the
/// run.
pub open spec fn spec_select(cands: Seq<Candidate>, prior: Option<i64>) -> SelectionOutcome {
    if exists|i: int| spec_first_match(cands, i) {
        let i = choose|i: int| spec_first_match(cands, i);
        match prior {
            Option::None => SelectionOutcome::Accepted {
                index: i as usize,
                instant: cands[i].instant,
            },
            Option::Some(p) => if cands[i].instant >= p {
                SelectionOutcome::Accepted { index: i as usize, instant: cands[i].instant }
            } else {
                SelectionOutcome::Rejected
            },
        }
    } else {
        SelectionOutcome::NotFound
    }
}

/// At most one index is the first match.
pub proof fn lemma_first_match_unique(cands: Seq<Candidate>, i: int, j: int)
    requires
        spec_first_match(cands, i),
        spec_first_match(cands, j),
    ensures
        i == j,
{
}

/// Scan the candidates in order for the first name that matches the naming
/// pattern and apply the freshness gate against the stored instant.
pub fn select_attachment(cands: &Vec<Candidate>, prior: Option<i64>) -> (r: SelectionOutcome)
    ensures
        r == spec_select(cands@, prior),
{
    let n = cands.len();
    let mut i: usize = 0;
    while i < n
        invariant
            n == cands@.len(),
            i <= n,
            forall|j: int| 0 <= j < i ==> !spec_name_matches(#[trigger] cands@[j].name@),
        decreases n - i,
    {
        if name_matches_pattern(cands[i].name.as_slice()) {
            proof {
                assert(spec_first_match(cands@, i as int));
                let w = choose|w: int| spec_first_match(cands@, w);
                lemma_first_match_unique(cands@, i as int, w);
            }
            let instant = cands[i].instant;
            match prior {
                Option::None => {
                    return SelectionOutcome::Accepted { index: i, instant };
                },
                Option::Some(p) => {
                    if instant >= p {
                        return SelectionOutcome::Accepted { index: i, instant };
                    } else {
                        return SelectionOutcome::Rejected;
                    }
                },
            }
        }
        i = i + 1;
    }
    assert forall|w: int| !spec_first_match(cands@, w) by {
        if 0 <= w < cands@.len() {
            assert(!spec_name_matches(cands@[w].name@));
        }
    }
    SelectionOutcome::NotFound
}

/// Selection law: the outcome is decided by the first matching candidate
/// alone, wherever it stands among the others. When no stored instant bars
/// it, that candidate is the one accepted.
pub proof fn lemma_first_match_selected(cands: Seq<Candidate>, prior: Option<i64>, i: int)
    requires
        spec_first_match(cands, i),
        prior matches Option::Some(p) ==> cands[i].instant >= p,
    ensures
        spec_select(cands, prior) == (SelectionOutcome::Accepted {
            index: i as usize,
            instant: cands[i].instant,
        }),
{
    let w = choose|w: int| spec_first_match(cands, w);
    lemma_first_match_unique(cands, i, w);
}

/// Freshness-gate law: a run whose first matching candidate is strictly
/// older than the stored instant terminates through rejection, whatever the
/// other candidates hold.
pub proof fn lemma_gate_rejects_stale(cands: Seq<Candidate>, p: i64, i: int)
    requires
        spec_first_match(cands, i),
        cands[i].instant < p,
    ensures
        spec_select(cands, Option::Some(p)) == SelectionOutcome::Rejected,
{
    let w = choose|w: int| spec_first_match(cands, w);
    lemma_first_match_unique(cands, i, w);
}

/// Freshness-gate law across two runs: once a run has accepted a candidate
/// and stored its instant, a later run whose first matching candidate is
/// strictly older than that stored instant is rejected.
pub proof fn lemma_second_run_rejected(
    first: Seq<Candidate>,
    prior: Option<i64>,
    second: Seq<Candidate>,
    stored: i64,
    j: int,
)
    requires
        spec_select(first, prior) matches SelectionOutcome::Accepted { instant, .. }
            && instant == stored,
        spec_first_match(second, j),
        second[j].instant < stored,
    ensures
        spec_select(second, Option::Some(stored)) == SelectionOutcome::Rejected,
{
    lemma_gate_rejects_stale(second, stored, j);
}

} // verus!
