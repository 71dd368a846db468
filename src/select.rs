//! The candidate selector: probes candidates one at a time, in the order
//! given, and stops at the first one that answers as reachable.
//!
//! The probing itself is done by the caller. The selector is a function of
//! the number of candidates and of the answers the prober gave so far; it
//! says which candidate to probe next, or that the scan is over.
use vstd::prelude::*;

verus! {

/// What a selection pass does next.
#[derive(PartialEq, Eq, Structural, Debug, Clone, Copy)]
pub enum ScanStep {
    /// Probe the candidate at this index.
    Probe(usize),
    /// The candidate at this index is the first reachable one.
    Chosen(usize),
    /// Every candidate was probed and none is reachable.
    Exhausted,
}

/// A candidate address together with the port that a probe targets.
pub struct CandidateEndpoint {
    pub address: String,
    pub port: u16,
}

/// The index of the first `true` answer, or -1 when there is none.
pub open spec fn first_reachable(answers: Seq<bool>) -> int
    decreases answers.len(),
{
    if answers.len() == 0 {
        -1
    } else {
        let earlier = first_reachable(answers.drop_last());
        if earlier >= 0 {
            earlier
        } else if answers.last() {
            answers.len() - 1
        } else {
            -1
        }
    }
}

/// The next step of a pass over `n` candidates after the prober answered
/// `answers` for the first `answers.len()` of them.
pub open spec fn scan_decision(n: nat, answers: Seq<bool>) -> ScanStep {
    let f = first_reachable(answers);
    if f >= 0 {
        ScanStep::Chosen(f as usize)
    } else if answers.len() < n {
        ScanStep::Probe(answers.len() as usize)
    } else {
        ScanStep::Exhausted
    }
}

/// The first reachable answer is at `k` when `k` is the first `true`.
pub proof fn lemma_first_reachable_at(answers: Seq<bool>, k: int)
    requires
        0 <= k < answers.len(),
        answers[k],
        forall|j: int| 0 <= j < k ==> !answers[j],
    ensures
        first_reachable(answers) == k,
    decreases answers.len(),
{
    if k < answers.len() - 1 {
        lemma_first_reachable_at(answers.drop_last(), k);
    } else {
        lemma_first_reachable_none(answers.drop_last());
    }
}

/// Without a `true` answer there is no first reachable one.
pub proof fn lemma_first_reachable_none(answers: Seq<bool>)
    requires
        forall|j: int| 0 <= j < answers.len() ==> !answers[j],
    ensures
        first_reachable(answers) == -1,
    decreases answers.len(),
{
    if answers.len() > 0 {
        lemma_first_reachable_none(answers.drop_last());
    }
}

/// The next step of a selection pass over `n` candidates, given the answers
/// of the probes made so far (one per candidate, in order).
pub fn next_scan_step(n: usize, answers: &Vec<bool>) -> (r: ScanStep)
    requires
        answers.len() <= n,
    ensures
        r == scan_decision(n as nat, answers@),
        r matches ScanStep::Chosen(i) ==> i < answers.len(),
{
    let mut i: usize = 0;
    while i < answers.len()
        invariant
            i <= answers.len(),
            forall|j: int| 0 <= j < i ==> !answers@[j],
        decreases answers.len() - i,
    {
        if answers[i] {
            proof {
                lemma_first_reachable_at(answers@, i as int);
            }
            return ScanStep::Chosen(i);
        }
        i = i + 1;
    }
    proof {
        lemma_first_reachable_none(answers@);
    }
    if answers.len() < n {
        ScanStep::Probe(answers.len())
    } else {
        ScanStep::Exhausted
    }
}

/// The endpoint that probes the candidate `address` on `port`.
pub fn endpoint_for(address: &String, port: u16) -> (r: CandidateEndpoint)
    ensures
        r.address@ == address@,
        r.port == port,
{
    CandidateEndpoint { address: address.clone(), port }
}

/// When exactly one of `n > 0` candidates is reachable, a pass driven by the
/// prober's answers probes the candidates up to that one, in order, and then
/// chooses it, wherever it stands in the list.
pub proof fn lemma_single_reachable_is_chosen(n: nat, oracle: Seq<bool>, k: int)
    requires
        n <= usize::MAX,
        oracle.len() == n,
        0 <= k < n,
        oracle[k],
        forall|j: int| 0 <= j < n && j != k ==> !oracle[j],
    ensures
        forall|j: int| 0 <= j <= k ==> scan_decision(n, #[trigger] oracle.take(j)) == ScanStep::Probe(j as usize),
        scan_decision(n, oracle.take(k + 1)) == ScanStep::Chosen(k as usize),
{
    assert forall|j: int| 0 <= j <= k implies scan_decision(n, #[trigger] oracle.take(j))
        == ScanStep::Probe(j as usize) by {
        lemma_first_reachable_none(oracle.take(j));
    };
    lemma_first_reachable_at(oracle.take(k + 1), k);
}

/// When none of the candidates is reachable, a pass probes each candidate
/// exactly once, in order, and ends with nothing chosen: it makes as many
/// probes as there are candidates.
pub proof fn lemma_unreachable_probes_all(n: nat, oracle: Seq<bool>)
    requires
        n <= usize::MAX,
        oracle.len() == n,
        forall|j: int| 0 <= j < n ==> !oracle[j],
    ensures
        forall|j: int| 0 <= j < n ==> scan_decision(n, #[trigger] oracle.take(j)) == ScanStep::Probe(j as usize),
        scan_decision(n, oracle) == ScanStep::Exhausted,
{
    assert forall|j: int| 0 <= j < n implies scan_decision(n, #[trigger] oracle.take(j))
        == ScanStep::Probe(j as usize) by {
        lemma_first_reachable_none(oracle.take(j));
    };
    lemma_first_reachable_none(oracle);
}

} // verus!
