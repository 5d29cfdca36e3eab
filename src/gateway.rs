//! Failover across interchangeable search-engine nodes.
//!
//! Every call visits the nodes in a fresh random order and stops at the
//! first node that answers. The decisions are a state machine: the caller
//! performs each attempt and reports its outcome back.
use vstd::prelude::*;
use rand::SeedableRng;
use rand::seq::SliceRandom;

verus! {

/// Error returned when every node failed.
#[derive(Clone, Debug)]
pub struct GatewayError {
    /// Number of nodes that were tried.
    pub attempted: usize,
    /// The failure reported by the last node tried.
    pub last_error: Option<String>,
}

/// What the caller does next.
#[derive(Clone, Debug)]
pub enum GatewayAction {
    /// Run the operation against the node with this index.
    TryNode(usize),
    /// The node with this index answered: hand its response back.
    Succeeded(usize),
    /// No node answered.
    AllFailed(GatewayError),
}

/// One logical call in progress.
#[derive(Clone, Debug)]
pub struct NodeFailover {
    /// Node indices in the order in which they are tried.
    pub order: Vec<usize>,
    /// Number of nodes that have failed so far.
    pub tried: usize,
    pub last_error: Option<String>,
}

/// The action that a state asks for.
pub open spec fn spec_action(s: NodeFailover) -> GatewayAction {
    if s.tried < s.order@.len() {
        GatewayAction::TryNode(s.order@[s.tried as int])
    } else {
        GatewayAction::AllFailed(GatewayError { attempted: s.tried, last_error: s.last_error })
    }
}

/// The state after the current node failed with `e`.
pub open spec fn spec_after_failure(s: NodeFailover, e: String) -> NodeFailover {
    NodeFailover { tried: (s.tried + 1) as usize, last_error: Some(e), ..s }
}

/// The final action of a call in which node `n` behaves as `outcome_of[n]`.
pub open spec fn spec_drive(s: NodeFailover, outcome_of: Seq<Result<(), String>>) -> GatewayAction
    decreases s.order@.len() - s.tried,
{
    if s.tried < s.order@.len() <= usize::MAX {
        let n = s.order@[s.tried as int];
        match outcome_of[n as int] {
            Ok(_) => GatewayAction::Succeeded(n),
            Err(e) => spec_drive(spec_after_failure(s, e), outcome_of),
        }
    } else {
        spec_action(s)
    }
}

/// Relies on rand's `SliceRandom::shuffle`, with a `StdRng` seeded from the
/// operating system: the elements are permuted in place by swaps. When no
/// seed can be had the order is left as it is.
#[verifier::external_body]
fn shuffle_nodes(v: &mut Vec<usize>)
    ensures
        final(v)@.to_multiset() == old(v)@.to_multiset(),
{
    if let Ok(mut rng) = rand::rngs::StdRng::from_rng(rand::rngs::OsRng) {
        v.as_mut_slice().shuffle(&mut rng);
    }
}

/// A random order of the nodes `0 .. node_count`, each exactly once.
pub fn shuffled_node_order(node_count: usize) -> (r: Vec<usize>)
    ensures
        r@.len() == node_count,
        forall|i: int| 0 <= i < r@.len() ==> r@[i] < node_count,
        forall|j: usize| j < node_count ==> r@.contains(j),
{
    let mut v: Vec<usize> = Vec::new();
    let mut i: usize = 0;
    while i < node_count
        invariant
            i <= node_count,
            v@ == Seq::new(i as nat, |k: int| k as usize),
        decreases node_count - i,
    {
        v.push(i);
        i = i + 1;
        assert(v@ =~= Seq::new(i as nat, |k: int| k as usize));
    }
    let ghost before = v@;
    shuffle_nodes(&mut v);
    proof {
        before.to_multiset_ensures();
        v@.to_multiset_ensures();
        assert forall|i: int| 0 <= i < v@.len() implies v@[i] < node_count by {
            assert(v@.to_multiset().count(v@[i]) > 0);
            assert(before.contains(v@[i]));
        }
        assert forall|j: usize| j < node_count implies v@.contains(j) by {
            assert(before[j as int] == j);
            assert(before.to_multiset().count(j) > 0);
        }
    }
    v
}

impl NodeFailover {
    /// Starts a call that visits the nodes in `order`.
    pub fn new(order: Vec<usize>) -> (r: NodeFailover)
        ensures
            r == (NodeFailover { order, tried: 0, last_error: None }),
    {
        NodeFailover { order, tried: 0, last_error: None }
    }

    /// Starts a call over `node_count` nodes in a random order.
    pub fn shuffled(node_count: usize) -> (r: NodeFailover)
        ensures
            r.tried == 0,
            r.last_error.is_none(),
            r.order@.len() == node_count,
            forall|j: usize| j < node_count ==> r.order@.contains(j),
            forall|i: int| 0 <= i < r.order@.len() ==> r.order@[i] < node_count,
    {
        NodeFailover::new(shuffled_node_order(node_count))
    }

    /// What to do in the current state.
    pub fn action(&self) -> (r: GatewayAction)
        ensures
            r == spec_action(*self),
    {
        if self.tried < self.order.len() {
            GatewayAction::TryNode(self.order[self.tried])
        } else {
            GatewayAction::AllFailed(GatewayError { attempted: self.tried, last_error: self.last_error.clone() })
        }
    }

    /// Takes the outcome of the attempt that `action` asked for.
    pub fn on_outcome(&mut self, outcome: Result<(), String>) -> (r: GatewayAction)
        requires
            old(self).tried < old(self).order@.len(),
        ensures
            match outcome {
                Ok(_) => *final(self) == *old(self)
                    && r == GatewayAction::Succeeded(old(self).order@[old(self).tried as int]),
                Err(e) => *final(self) == spec_after_failure(*old(self), e)
                    && r == spec_action(*final(self)),
            },
    {
        let len: usize = self.order.len();
        match outcome {
            Ok(_) => GatewayAction::Succeeded(self.order[self.tried]),
            Err(e) => {
                self.tried = self.tried + 1;
                self.last_error = Some(e);
                self.action()
            },
        }
    }
}

/// The outcome of a call, for nodes that each always answer or always fail:
/// when some node answers the call succeeds on an answering node, whatever
/// the order; when all fail, the error counts every node and carries the
/// failure of the last one tried.
pub proof fn lemma_failover_outcome(order: Vec<usize>, outcome_of: Seq<Result<(), String>>)
    requires
        1 <= order@.len() <= usize::MAX,
        forall|i: int| 0 <= i < order@.len() ==> order@[i] < outcome_of.len(),
    ensures
        (exists|i: int| 0 <= i < order@.len() && outcome_of[order@[i] as int] is Ok) ==> {
            let r = spec_drive(NodeFailover { order, tried: 0, last_error: None }, outcome_of);
            &&& r is Succeeded
            &&& outcome_of[r->Succeeded_0 as int] is Ok
            &&& order@.contains(r->Succeeded_0)
        },
        (forall|i: int| 0 <= i < order@.len() ==> outcome_of[order@[i] as int] is Err) ==>
            spec_drive(NodeFailover { order, tried: 0, last_error: None }, outcome_of)
                == GatewayAction::AllFailed(GatewayError {
                    attempted: order@.len() as usize,
                    last_error: Some(outcome_of[order@.last() as int]->Err_0),
                }),
{
    lemma_drive_from(NodeFailover { order, tried: 0, last_error: None }, outcome_of);
}

proof fn lemma_drive_from(s: NodeFailover, outcome_of: Seq<Result<(), String>>)
    requires
        s.tried <= s.order@.len(),
        1 <= s.order@.len() <= usize::MAX,
        s.tried > 0 ==> s.last_error == Some(outcome_of[s.order@[s.tried - 1] as int]->Err_0),
        forall|i: int| 0 <= i < s.order@.len() ==> s.order@[i] < outcome_of.len(),
    ensures
        (exists|i: int| s.tried <= i < s.order@.len() && outcome_of[s.order@[i] as int] is Ok) ==> {
            let r = spec_drive(s, outcome_of);
            &&& r is Succeeded
            &&& outcome_of[r->Succeeded_0 as int] is Ok
            &&& s.order@.contains(r->Succeeded_0)
        },
        (forall|i: int| s.tried <= i < s.order@.len() ==> outcome_of[s.order@[i] as int] is Err) ==>
            spec_drive(s, outcome_of) == GatewayAction::AllFailed(GatewayError {
                attempted: s.order@.len() as usize,
                last_error: Some(outcome_of[s.order@.last() as int]->Err_0),
            }),
    decreases s.order@.len() - s.tried,
{
    if s.tried < s.order@.len() {
        let n = s.order@[s.tried as int];
        match outcome_of[n as int] {
            Ok(_) => {
                assert(s.order@.contains(n));
            },
            Err(e) => {
                let s2 = spec_after_failure(s, e);
                assert(s2.tried == s.tried + 1);
                assert(s2.order@[s2.tried - 1] == n);
                lemma_drive_from(s2, outcome_of);
                if exists|i: int| s.tried <= i < s.order@.len() && outcome_of[s.order@[i] as int] is Ok {
                    let i = choose|i: int| s.tried <= i < s.order@.len() && outcome_of[s.order@[i] as int] is Ok;
                    assert(i != s.tried);
                    assert(s2.tried <= i < s2.order@.len() && outcome_of[s2.order@[i] as int] is Ok);
                }
            },
        }
    }
}

} // verus!
