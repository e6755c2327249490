//! Fleet orchestrator: owns the ordered supervisors, the storage-directory
//! decision, the startup and shutdown orders, and the log-viewport policy.
//! The caller that owns the real processes drives startup and shutdown
//! through the orders and per-node transitions defined here.

use vstd::prelude::*;

use crate::config::{ChainArgs, NodeArgs};
use crate::node::SnarkNode;
use crate::strutil::{dec_str, usize_to_string};

verus! {

/// The identity name of the supervisor at position `i`.
pub open spec fn spec_node_name(i: nat) -> Seq<char> {
    "node"@ + dec_str(i)
}

/// Builds the identity name of the supervisor at position `idx`.
pub fn node_name(idx: usize) -> (r: String)
    ensures
        r@ == spec_node_name(idx as nat),
{
    let mut r = "node".to_owned();
    let num = usize_to_string(idx);
    r.append(num.as_str());
    r
}

/// The fleet: supervisors in start order (the index is the stable identity),
/// the resolved storage directory, and whether that directory is owned by
/// the fleet and so removed on teardown.
pub struct NodeSet {
    /// Path of the chain storage directory.
    pub chain_path: String,
    /// The storage directory was created by the fleet itself and is cleared
    /// on teardown.
    pub clear: bool,
    /// The supervisors, in start order.
    pub nodes: Vec<SnarkNode>,
}

impl NodeSet {
    /// Builds the fleet from a validated configuration: one idle, silenced
    /// supervisor per node, named by its position.
    pub fn new(chain_cfg: ChainArgs) -> (r: NodeSet)
        ensures
            r.nodes@.len() == chain_cfg.snarkos@.len(),
            forall|i: int|
                0 <= i < r.nodes@.len() ==> (#[trigger] r.nodes@[i].name@ == spec_node_name(
                    i as nat,
                ) && r.nodes@[i].args.deep_view() == chain_cfg.snarkos@[i].args_view()
                    && r.nodes@[i].ready_phrase@ == chain_cfg.snarkos@[i].phrase_view()
                    && !r.nodes@[i].running && !r.nodes@[i].monitoring && r.nodes@[i].silent),
            r.chain_path@.len() == 0,
            !r.clear,
    {
        let ghost orig = chain_cfg.snarkos@;
        let mut src = chain_cfg.snarkos;
        let mut rev: Vec<NodeArgs> = Vec::new();
        proof {
            assert(orig.subrange(0, orig.len() as int) =~= orig);
        }
        while src.len() > 0
            invariant
                src@.len() + rev@.len() == orig.len(),
                src@ == orig.subrange(0, src@.len() as int),
                forall|q: int| 0 <= q < rev@.len() ==> rev@[q] == orig[orig.len() - 1 - q],
            decreases src@.len(),
        {
            let ghost before = src@;
            let last = src.pop().unwrap();
            proof {
                assert(before.subrange(0, before.len() - 1) =~= orig.subrange(
                    0,
                    before.len() - 1,
                ));
            }
            rev.push(last);
        }
        let mut nodes: Vec<SnarkNode> = Vec::new();
        while rev.len() > 0
            invariant
                rev@.len() + nodes@.len() == orig.len(),
                forall|q: int| 0 <= q < rev@.len() ==> rev@[q] == orig[orig.len() - 1 - q],
                forall|i: int|
                    0 <= i < nodes@.len() ==> (#[trigger] nodes@[i].name@ == spec_node_name(
                        i as nat,
                    ) && nodes@[i].args.deep_view() == orig[i].args_view()
                        && nodes@[i].ready_phrase@ == orig[i].phrase_view() && !nodes@[i].running
                        && !nodes@[i].monitoring && nodes@[i].silent),
            decreases rev@.len(),
        {
            let cfg = rev.pop().unwrap();
            proof {
                assert(cfg == orig[nodes@.len() as int]);
            }
            let name = node_name(nodes.len());
            let node = SnarkNode::new(cfg, name.as_str());
            let ghost before = nodes@;
            nodes.push(node);
            proof {
                assert forall|i: int| 0 <= i < nodes@.len() implies (#[trigger] nodes@[i].name@
                    == spec_node_name(i as nat) && nodes@[i].args.deep_view()
                    == orig[i].args_view() && nodes@[i].ready_phrase@ == orig[i].phrase_view()
                    && !nodes@[i].running && !nodes@[i].monitoring && nodes@[i].silent) by {
                    if i < before.len() {
                        assert(nodes@[i] == before[i]);
                    } else {
                        assert(nodes@[i] == node);
                    }
                }
            }
        }
        NodeSet { chain_path: String::new(), clear: false, nodes }
    }

    /// The number of supervisors in the fleet.
    pub fn len(&self) -> (r: usize)
        ensures
            r == self.nodes@.len(),
    {
        self.nodes.len()
    }

    /// Records the resolved storage directory. `owned` marks a directory the
    /// fleet created itself, which teardown removes; a caller-supplied
    /// directory is never owned and is left in place.
    pub fn set_storage(&mut self, path: String, owned: bool)
        ensures
            final(self).chain_path == path,
            final(self).clear == owned,
            final(self).nodes == old(self).nodes,
    {
        self.chain_path = path;
        self.clear = owned;
    }

    /// Whether teardown must remove the storage directory.
    pub fn should_clear(&self) -> (r: bool)
        ensures
            r == self.clear,
    {
        self.clear
    }

    /// The order in which startup brings the supervisors up: strictly
    /// ascending from the first position.
    pub fn start_order(&self) -> (r: Vec<usize>)
        ensures
            r@.len() == self.nodes@.len(),
            forall|i: int| 0 <= i < r@.len() ==> #[trigger] r@[i] as int == i,
    {
        let n = self.nodes.len();
        let mut r: Vec<usize> = Vec::new();
        let mut i: usize = 0;
        while i < n
            invariant
                i <= n,
                r@.len() == i,
                forall|q: int| 0 <= q < i ==> #[trigger] r@[q] as int == q,
            decreases n - i,
        {
            r.push(i);
            i = i + 1;
        }
        r
    }

    /// The order in which teardown stops the supervisors: strictly
    /// descending, the reverse of startup.
    pub fn stop_order(&self) -> (r: Vec<usize>)
        ensures
            r@.len() == self.nodes@.len(),
            forall|i: int|
                0 <= i < r@.len() ==> #[trigger] r@[i] as int == r@.len() - 1 - i,
    {
        let n = self.nodes.len();
        let mut r: Vec<usize> = Vec::new();
        let mut i: usize = n;
        while i > 0
            invariant
                i <= n,
                r@.len() == n - i,
                forall|q: int| 0 <= q < r@.len() ==> #[trigger] r@[q] as int == n - 1 - q,
            decreases i,
        {
            i = i - 1;
            r.push(i);
        }
        r
    }

    /// The next supervisor that startup must bring up: the first one not yet
    /// running, if any.
    pub fn next_to_start(&self) -> (r: Option<usize>)
        ensures
            r matches Some(i) ==> i < self.nodes@.len() && !self.nodes@[i as int].running && (
            forall|q: int| 0 <= q < i ==> self.nodes@[q].running),
            r is None ==> forall|q: int| 0 <= q < self.nodes@.len() ==> self.nodes@[q].running,
    {
        let n = self.nodes.len();
        let mut i: usize = 0;
        while i < n
            invariant
                i <= n,
                n == self.nodes@.len(),
                forall|q: int| 0 <= q < i ==> self.nodes@[q].running,
            decreases n - i,
        {
            if !self.nodes[i].is_running() {
                return Some(i);
            }
            i = i + 1;
        }
        None
    }

    /// Silences every supervisor's log forwarding.
    pub fn stdout_silent(&mut self)
        ensures
            final(self).nodes@.len() == old(self).nodes@.len(),
            forall|i: int|
                0 <= i < final(self).nodes@.len() ==> (#[trigger] final(self).nodes@[i].silent
                    && final(self).nodes@[i].name == old(self).nodes@[i].name
                    && final(self).nodes@[i].args == old(self).nodes@[i].args
                    && final(self).nodes@[i].ready_phrase == old(self).nodes@[i].ready_phrase
                    && final(self).nodes@[i].running == old(self).nodes@[i].running
                    && final(self).nodes@[i].monitoring == old(self).nodes@[i].monitoring),
            final(self).chain_path == old(self).chain_path,
            final(self).clear == old(self).clear,
    {
        let n = self.nodes.len();
        let mut i: usize = 0;
        while i < n
            invariant
                i <= n,
                n == self.nodes@.len(),
                self.chain_path == old(self).chain_path,
                self.clear == old(self).clear,
                forall|q: int|
                    i <= q < n ==> #[trigger] self.nodes@[q] == old(self).nodes@[q],
                forall|q: int|
                    0 <= q < i ==> (#[trigger] self.nodes@[q].silent && self.nodes@[q].name == old(
                        self,
                    ).nodes@[q].name && self.nodes@[q].args == old(self).nodes@[q].args
                        && self.nodes@[q].ready_phrase == old(self).nodes@[q].ready_phrase
                        && self.nodes@[q].running == old(self).nodes@[q].running
                        && self.nodes@[q].monitoring == old(self).nodes@[q].monitoring),
            decreases n - i,
        {
            self.nodes[i].stdout_show(false);
            i = i + 1;
        }
    }

    /// Shows exactly the supervisor at `idx`: its log forwarding is switched
    /// on, every other supervisor's is switched off.
    pub fn stdout_show(&mut self, idx: usize)
        ensures
            final(self).nodes@.len() == old(self).nodes@.len(),
            forall|i: int|
                0 <= i < final(self).nodes@.len() ==> (#[trigger] final(self).nodes@[i].silent == (
                i != idx as int) && final(self).nodes@[i].name == old(self).nodes@[i].name
                    && final(self).nodes@[i].args == old(self).nodes@[i].args
                    && final(self).nodes@[i].ready_phrase == old(self).nodes@[i].ready_phrase
                    && final(self).nodes@[i].running == old(self).nodes@[i].running
                    && final(self).nodes@[i].monitoring == old(self).nodes@[i].monitoring),
            final(self).chain_path == old(self).chain_path,
            final(self).clear == old(self).clear,
    {
        let n = self.nodes.len();
        let mut i: usize = 0;
        while i < n
            invariant
                i <= n,
                n == self.nodes@.len(),
                self.chain_path == old(self).chain_path,
                self.clear == old(self).clear,
                forall|q: int|
                    i <= q < n ==> #[trigger] self.nodes@[q] == old(self).nodes@[q],
                forall|q: int|
                    0 <= q < i ==> (#[trigger] self.nodes@[q].silent == (q != idx as int)
                        && self.nodes@[q].name == old(self).nodes@[q].name && self.nodes@[q].args
                        == old(self).nodes@[q].args && self.nodes@[q].ready_phrase == old(
                        self,
                    ).nodes@[q].ready_phrase && self.nodes@[q].running == old(
                        self,
                    ).nodes@[q].running && self.nodes@[q].monitoring == old(
                        self,
                    ).nodes@[q].monitoring),
            decreases n - i,
        {
            self.nodes[i].stdout_show(i == idx);
            i = i + 1;
        }
    }
}

/// Law: selecting one viewport and then another leaves exactly the second
/// selection unsilenced, whatever was shown before.
pub proof fn lemma_show_only_last_selection(s0: NodeSet, s1: NodeSet, s2: NodeSet, x: int, y: int)
    requires
        x != y,
        s1.nodes@.len() == s0.nodes@.len(),
        forall|i: int| 0 <= i < s1.nodes@.len() ==> #[trigger] s1.nodes@[i].silent == (i != x),
        s2.nodes@.len() == s1.nodes@.len(),
        forall|i: int| 0 <= i < s2.nodes@.len() ==> #[trigger] s2.nodes@[i].silent == (i != y),
    ensures
        forall|i: int|
            0 <= i < s2.nodes@.len() ==> (!(#[trigger] s2.nodes@[i].silent) <==> i == y),
        0 <= x < s2.nodes@.len() ==> s2.nodes@[x].silent,
{
}

/// Law: the shutdown order is exactly the reverse of the startup order.
pub proof fn lemma_stop_order_reverses_start(start: Seq<usize>, stop: Seq<usize>)
    requires
        start.len() == stop.len(),
        forall|i: int| 0 <= i < start.len() ==> #[trigger] start[i] as int == i,
        forall|i: int| 0 <= i < stop.len() ==> #[trigger] stop[i] as int == stop.len() - 1 - i,
    ensures
        stop =~= start.reverse(),
{
    assert forall|i: int| 0 <= i < stop.len() implies stop[i] == start.reverse()[i] by {
        assert(start.reverse()[i] == start[stop.len() - 1 - i]);
    }
}

} // verus!
