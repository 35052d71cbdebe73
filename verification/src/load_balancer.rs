//! The node registry and selection engine: the live set of backend nodes,
//! their cached metrics and liveness flags, and the selection strategies.
//!
//! The registry owns its nodes, keyed by a unique id; re-adding an id
//! overwrites the prior entry. Selection first keeps the active nodes whose
//! cached model listing includes the requested model, then applies the
//! configured strategy; it never reaches the network. Ties are broken by
//! node order (first encountered), and the round-robin cursor is
//! registry-wide, taken modulo the size of the qualifying set at selection
//! time.

use vstd::pervasive::VecAdditionalExecFns;
use vstd::prelude::*;

use crate::llm::{spec_models_include, ModelInfo, NodeMetrics};
use crate::local_llm::BackendClient;

verus! {

/// The strategy used to pick one node among several qualifying candidates.
#[derive(Clone, Copy, PartialEq, Eq, Structural, Debug)]
pub enum LoadBalancingStrategy {
    /// Rotate through the qualifying nodes with a registry-wide cursor.
    RoundRobin,
    /// Pick the node with the fewest in-flight requests.
    LeastLoaded,
    /// Pick the node scoring best on context length against utilization.
    CapabilityBased,
    /// Pick the node with the lowest average response time.
    LatencyBased,
}

impl Default for LoadBalancingStrategy {
    /// The default strategy is round robin.
    fn default() -> (r: Self)
        ensures
            r == LoadBalancingStrategy::RoundRobin,
    {
        LoadBalancingStrategy::RoundRobin
    }
}

/// Configuration for the load balancer.
#[derive(Clone, Copy, PartialEq, Eq, Structural, Debug)]
pub struct LoadBalancerConfig {
    /// The load balancing strategy to use.
    pub strategy: LoadBalancingStrategy,
    /// Maximum number of retries if a node fails.
    pub max_retries: usize,
    /// Timeout for node selection in milliseconds.
    pub selection_timeout_ms: u64,
}

impl Default for LoadBalancerConfig {
    /// The default selection setup: round robin, three retries, one second.
    fn default() -> (r: Self)
        ensures
            r.strategy == LoadBalancingStrategy::RoundRobin,
            r.max_retries == 3,
            r.selection_timeout_ms == 1000,
    {
        LoadBalancerConfig {
            strategy: LoadBalancingStrategy::RoundRobin,
            max_retries: 3,
            selection_timeout_ms: 1000,
        }
    }
}

/// One backend node participating in the pool: a unique id, its client, the
/// last-known metrics snapshot, and a coarse liveness flag.
#[derive(Debug)]
pub struct LoadBalancerNode {
    /// Unique identifier for the node.
    pub id: String,
    /// The backend client for this node.
    pub client: BackendClient,
    /// Last reported metrics for this node.
    pub metrics: NodeMetrics,
    /// Whether this node is active.
    pub active: bool,
}

/// Whether two nodes agree field for field.
pub open spec fn eq_node(a: LoadBalancerNode, b: LoadBalancerNode) -> bool {
    &&& a.id@ == b.id@
    &&& crate::local_llm::eq_backend(a.client, b.client)
    &&& a.metrics == b.metrics
    &&& a.active == b.active
}

/// Whether two node sequences agree element for element.
pub open spec fn eq_nodes(a: Seq<LoadBalancerNode>, b: Seq<LoadBalancerNode>) -> bool {
    a.len() == b.len() && forall|i: int| 0 <= i < a.len() ==> eq_node(#[trigger] a[i], b[i])
}

impl Clone for LoadBalancerNode {
    /// Clone agreeing with the original field for field.
    fn clone(&self) -> (r: Self)
        ensures
            eq_node(r, *self),
    {
        LoadBalancerNode {
            id: self.id.clone(),
            client: self.client.clone(),
            metrics: self.metrics,
            active: self.active,
        }
    }
}

/// The position of the first node in `s` whose id is `id`, or -1.
pub open spec fn find_idx(s: Seq<LoadBalancerNode>, id: Seq<char>) -> int
    decreases s.len(),
{
    if s.len() == 0 {
        -1
    } else if s[0].id@ == id {
        0
    } else {
        let r = find_idx(s.drop_first(), id);
        if r < 0 {
            -1
        } else {
            r + 1
        }
    }
}

/// Whether some node in `s` carries the id `id`.
pub open spec fn has_node(s: Seq<LoadBalancerNode>, id: Seq<char>) -> bool {
    exists|i: int| 0 <= i < s.len() && (#[trigger] s[i]).id@ == id
}

/// `find_idx` returns exactly the first matching position, or -1 when no
/// node matches.
pub proof fn lemma_find_idx(s: Seq<LoadBalancerNode>, id: Seq<char>)
    ensures
        find_idx(s, id) == -1 <==> !has_node(s, id),
        has_node(s, id) ==> {
            let j = find_idx(s, id);
            &&& 0 <= j < s.len()
            &&& s[j].id@ == id
            &&& forall|k: int| 0 <= k < j ==> (#[trigger] s[k]).id@ != id
        },
    decreases s.len(),
{
    if s.len() > 0 {
        lemma_find_idx(s.drop_first(), id);
        if s[0].id@ != id {
            assert forall|i: int| 0 <= i < s.len() && (#[trigger] s[i]).id@ == id implies has_node(
                s.drop_first(),
                id,
            ) by {
                assert(s.drop_first()[i - 1].id@ == id);
            }
            assert forall|i: int|
                0 <= i < s.drop_first().len() && (#[trigger] s.drop_first()[i]).id@
                    == id implies has_node(s, id) by {
                assert(s[i + 1].id@ == id);
            }
            if has_node(s, id) {
                let j = find_idx(s, id);
                let jp = find_idx(s.drop_first(), id);
                assert(j == jp + 1);
                assert(s.drop_first()[jp] == s[jp + 1]);
                assert forall|k: int| 0 <= k < j implies (#[trigger] s[k]).id@ != id by {
                    if k > 0 {
                        assert(s.drop_first()[k - 1] == s[k]);
                    }
                }
            }
        }
    }
}

/// The registry keyed by `id` after inserting or replacing `n`.
pub open spec fn spec_add_node(s: Seq<LoadBalancerNode>, n: LoadBalancerNode) -> Seq<
    LoadBalancerNode,
> {
    if has_node(s, n.id@) {
        s.update(find_idx(s, n.id@), n)
    } else {
        s.push(n)
    }
}

/// The registry after deleting the node keyed by `id`, if present.
pub open spec fn spec_remove_node(s: Seq<LoadBalancerNode>, id: Seq<char>) -> Seq<
    LoadBalancerNode,
> {
    if has_node(s, id) {
        s.remove(find_idx(s, id))
    } else {
        s
    }
}

/// The registry after overwriting the metrics snapshot of the node keyed by
/// `id`, if present.
pub open spec fn spec_update_metrics(
    s: Seq<LoadBalancerNode>,
    id: Seq<char>,
    m: NodeMetrics,
) -> Seq<LoadBalancerNode> {
    if has_node(s, id) {
        let i = find_idx(s, id);
        s.update(i, LoadBalancerNode { metrics: m, ..s[i] })
    } else {
        s
    }
}

/// The registry after setting the liveness flag of the node keyed by `id`,
/// if present.
pub open spec fn spec_set_active(s: Seq<LoadBalancerNode>, id: Seq<char>, active: bool) -> Seq<
    LoadBalancerNode,
> {
    if has_node(s, id) {
        let i = find_idx(s, id);
        s.update(i, LoadBalancerNode { active, ..s[i] })
    } else {
        s
    }
}

/// Whether `n` takes part in selection for `model`: it is active and its
/// cached listing includes the model.
pub open spec fn qualifies(n: LoadBalancerNode, model: Seq<char>) -> bool {
    n.active && spec_models_include(n.client.spec_models(), model)
}

/// The positions of the qualifying nodes of `s`, in node order.
pub open spec fn qual_idxs(s: Seq<LoadBalancerNode>, model: Seq<char>) -> Seq<int>
    decreases s.len(),
{
    if s.len() == 0 {
        Seq::empty()
    } else {
        let p = qual_idxs(s.drop_last(), model);
        if qualifies(s.last(), model) {
            p.push(s.len() - 1)
        } else {
            p
        }
    }
}

/// The qualifying positions are exactly the positions of qualifying nodes,
/// in increasing order.
pub proof fn lemma_qual_idxs(s: Seq<LoadBalancerNode>, model: Seq<char>)
    ensures
        forall|p: int|
            0 <= p < qual_idxs(s, model).len() ==> {
                &&& 0 <= #[trigger] qual_idxs(s, model)[p] < s.len()
                &&& qualifies(s[qual_idxs(s, model)[p]], model)
            },
        forall|p: int, q: int|
            0 <= p < q < qual_idxs(s, model).len() ==> #[trigger] qual_idxs(s, model)[p]
                < #[trigger] qual_idxs(s, model)[q],
        forall|i: int|
            0 <= i < s.len() && qualifies(#[trigger] s[i], model) ==> exists|p: int|
                0 <= p < qual_idxs(s, model).len() && qual_idxs(s, model)[p] == i,
    decreases s.len(),
{
    if s.len() > 0 {
        let s0 = s.drop_last();
        lemma_qual_idxs(s0, model);
        assert forall|i: int| 0 <= i < s.len() && qualifies(#[trigger] s[i], model) implies exists|
            p: int,
        | 0 <= p < qual_idxs(s, model).len() && qual_idxs(s, model)[p] == i by {
            if i < s.len() - 1 {
                assert(s0[i] == s[i]);
                let p = choose|p: int|
                    0 <= p < qual_idxs(s0, model).len() && qual_idxs(s0, model)[p] == i;
                assert(qual_idxs(s, model)[p] == i);
            } else {
                assert(s.last() == s[i]);
                assert(qual_idxs(s, model).last() == i);
            }
        }
    }
}

/// Every qualifying position of a registry with no qualifying node would be
/// a contradiction: an empty qualifying set means no node qualifies.
pub proof fn lemma_no_qualifying(s: Seq<LoadBalancerNode>, model: Seq<char>)
    ensures
        qual_idxs(s, model).len() == 0 <==> (forall|i: int|
            0 <= i < s.len() ==> !qualifies(#[trigger] s[i], model)),
{
    lemma_qual_idxs(s, model);
    if qual_idxs(s, model).len() > 0 {
        assert(qualifies(s[qual_idxs(s, model)[0]], model));
    }
}

/// The context length of the first model in `models` whose id is `model`,
/// or zero when none matches.
pub open spec fn first_match_ctx_len(models: Seq<ModelInfo>, model: Seq<char>) -> int
    decreases models.len(),
{
    if models.len() == 0 {
        0
    } else if models[0].id@ == model {
        models[0].max_context_length as int
    } else {
        first_match_ctx_len(models.drop_first(), model)
    }
}

/// The capability score of node `n` for `model`, scaled to integers: the
/// design-level score `1 + ctx/10000 - 0.5 cpu - 0.5 mem - 0.1 active` (with
/// utilization as fractions) multiplied by 20000, with utilization carried
/// in basis points. Higher is better.
pub open spec fn spec_node_score(n: LoadBalancerNode, model: Seq<char>) -> int {
    20000 + 2 * first_match_ctx_len(n.client.spec_models(), model)
        - n.metrics.cpu_utilization as int - n.metrics.memory_utilization as int - 2000
        * n.metrics.active_requests as int
}

/// The registry of backend nodes and the selection engine over them.
pub struct LoadBalancer {
    /// Configuration for the load balancer.
    pub config: LoadBalancerConfig,
    /// Nodes in the pool, in insertion order; ids are unique.
    pub nodes: Vec<LoadBalancerNode>,
    /// Current round-robin cursor.
    pub round_robin_index: usize,
}

impl LoadBalancer {
    /// Well-formedness: node ids are unique, and the cursor has room to
    /// advance.
    pub open spec fn wf(&self) -> bool {
        &&& forall|i: int, j: int|
            0 <= i < j < self.nodes@.len() ==> (#[trigger] self.nodes@[i]).id@
                != (#[trigger] self.nodes@[j]).id@
        &&& self.round_robin_index < usize::MAX
    }

    /// Create a new load balancer with the given configuration.
    pub fn new(config: LoadBalancerConfig) -> (r: Self)
        ensures
            r.wf(),
            r.config == config,
            r.nodes@.len() == 0,
            r.round_robin_index == 0,
    {
        LoadBalancer { config, nodes: Vec::new(), round_robin_index: 0 }
    }

    /// The position of the node keyed by `id`, if present.
    fn find_node_index(&self, id: &str) -> (r: Option<usize>)
        ensures
            r is Some <==> has_node(self.nodes@, id@),
            r matches Some(i) ==> i == find_idx(self.nodes@, id@),
    {
        proof {
            lemma_find_idx(self.nodes@, id@);
        }
        let mut i: usize = 0;
        while i < self.nodes.len()
            invariant
                i <= self.nodes@.len(),
                forall|k: int| 0 <= k < i ==> (#[trigger] self.nodes@[k]).id@ != id@,
                find_idx(self.nodes@, id@) == -1 <==> !has_node(self.nodes@, id@),
                has_node(self.nodes@, id@) ==> {
                    let j = find_idx(self.nodes@, id@);
                    &&& 0 <= j < self.nodes@.len()
                    &&& self.nodes@[j].id@ == id@
                    &&& forall|k: int| 0 <= k < j ==> (#[trigger] self.nodes@[k]).id@ != id@
                },
            decreases self.nodes@.len() - i,
        {
            if crate::text::str_eq(self.nodes[i].id.as_str(), id) {
                return Some(i);
            }
            i += 1;
        }
        None
    }

    /// Insert or replace the node keyed by `id`, seeding its metrics from the
    /// client's snapshot; the node starts active. Idempotent by id: the last
    /// write wins.
    pub fn add_node(&mut self, id: String, client: BackendClient)
        requires
            old(self).wf(),
        ensures
            final(self).wf(),
            final(self).config == old(self).config,
            final(self).round_robin_index == old(self).round_robin_index,
            final(self).nodes@ == spec_add_node(
                old(self).nodes@,
                (LoadBalancerNode {
                    id: id,
                    client: client,
                    metrics: client.spec_metrics(),
                    active: true,
                }),
            ),
    {
        let metrics = client.get_metrics();
        let node = LoadBalancerNode { id, client, metrics, active: true };
        proof {
            lemma_find_idx(self.nodes@, node.id@);
        }
        match self.find_node_index(node.id.as_str()) {
            Some(i) => {
                self.nodes.set(i, node);
            },
            None => {
                self.nodes.push(node);
            },
        }
    }

    /// Delete the node keyed by `id`. Returns whether it was present;
    /// "already removed" is not exceptional.
    pub fn remove_node(&mut self, id: &str) -> (r: bool)
        requires
            old(self).wf(),
        ensures
            final(self).wf(),
            final(self).config == old(self).config,
            final(self).round_robin_index == old(self).round_robin_index,
            r == has_node(old(self).nodes@, id@),
            final(self).nodes@ == spec_remove_node(old(self).nodes@, id@),
    {
        proof {
            lemma_find_idx(self.nodes@, id@);
        }
        match self.find_node_index(id) {
            Some(i) => {
                self.nodes.remove(i);
                true
            },
            None => false,
        }
    }

    /// Overwrite the cached metrics snapshot of the node keyed by `id`.
    /// Returns false, changing nothing, if the node is gone: the caller
    /// races the registry and must tolerate this.
    pub fn update_node_metrics(&mut self, id: &str, metrics: NodeMetrics) -> (r: bool)
        requires
            old(self).wf(),
        ensures
            final(self).wf(),
            final(self).config == old(self).config,
            final(self).round_robin_index == old(self).round_robin_index,
            r == has_node(old(self).nodes@, id@),
            final(self).nodes@ == spec_update_metrics(old(self).nodes@, id@, metrics),
    {
        proof {
            lemma_find_idx(self.nodes@, id@);
        }
        match self.find_node_index(id) {
            Some(i) => {
                let mut node = self.nodes.remove(i);
                node.metrics = metrics;
                self.nodes.insert(i, node);
                proof {
                    let s = old(self).nodes@;
                    let j = find_idx(s, id@);
                    assert(final(self).nodes@ =~= s.update(
                        j,
                        LoadBalancerNode { metrics: metrics, ..s[j] },
                    ));
                }
                true
            },
            None => false,
        }
    }

    /// Set the liveness flag of the node keyed by `id`; same not-found
    /// semantics as metrics updates.
    pub fn set_node_active(&mut self, id: &str, active: bool) -> (r: bool)
        requires
            old(self).wf(),
        ensures
            final(self).wf(),
            final(self).config == old(self).config,
            final(self).round_robin_index == old(self).round_robin_index,
            r == has_node(old(self).nodes@, id@),
            final(self).nodes@ == spec_set_active(old(self).nodes@, id@, active),
    {
        proof {
            lemma_find_idx(self.nodes@, id@);
        }
        match self.find_node_index(id) {
            Some(i) => {
                let mut node = self.nodes.remove(i);
                node.active = active;
                self.nodes.insert(i, node);
                proof {
                    let s = old(self).nodes@;
                    let j = find_idx(s, id@);
                    assert(final(self).nodes@ =~= s.update(
                        j,
                        LoadBalancerNode { active: active, ..s[j] },
                    ));
                }
                true
            },
            None => false,
        }
    }

    /// A copy of the node keyed by `id`, if present.
    pub fn get_node(&self, id: &str) -> (r: Option<LoadBalancerNode>)
        ensures
            r is Some <==> has_node(self.nodes@, id@),
            r matches Some(n) ==> eq_node(n, self.nodes@[find_idx(self.nodes@, id@)]),
    {
        proof {
            lemma_find_idx(self.nodes@, id@);
        }
        match self.find_node_index(id) {
            Some(i) => Some(self.nodes[i].clone()),
            None => None,
        }
    }

    /// Copies of all nodes, in node order.
    pub fn get_all_nodes(&self) -> (r: Vec<LoadBalancerNode>)
        ensures
            eq_nodes(r@, self.nodes@),
    {
        let mut out: Vec<LoadBalancerNode> = Vec::new();
        let mut i: usize = 0;
        while i < self.nodes.len()
            invariant
                i <= self.nodes@.len(),
                out@.len() == i,
                forall|j: int| 0 <= j < i ==> eq_node(#[trigger] out@[j], self.nodes@[j]),
            decreases self.nodes@.len() - i,
        {
            out.push(self.nodes[i].clone());
            i += 1;
        }
        out
    }

    /// Copies of the active nodes, in node order.
    pub fn get_active_nodes(&self) -> (r: Vec<LoadBalancerNode>)
        ensures
            eq_nodes(r@, active_subseq(self.nodes@)),
    {
        let mut out: Vec<LoadBalancerNode> = Vec::new();
        let mut i: usize = 0;
        while i < self.nodes.len()
            invariant
                i <= self.nodes@.len(),
                eq_nodes(out@, active_subseq(self.nodes@.take(i as int))),
            decreases self.nodes@.len() - i,
        {
            proof {
                assert(self.nodes@.take(i + 1).drop_last() =~= self.nodes@.take(i as int));
            }
            if self.nodes[i].active {
                out.push(self.nodes[i].clone());
            }
            i += 1;
        }
        proof {
            assert(self.nodes@.take(self.nodes@.len() as int) =~= self.nodes@);
        }
        out
    }

    /// Pick a position within the qualifying list with the round-robin
    /// cursor, then advance the cursor modulo the list's size.
    fn select_round_robin(&mut self, qual: &Vec<usize>) -> (r: usize)
        requires
            old(self).wf(),
            qual@.len() > 0,
            forall|p: int| 0 <= p < qual@.len() ==> #[trigger] qual@[p] < old(self).nodes@.len(),
        ensures
            final(self).wf(),
            final(self).nodes == old(self).nodes,
            final(self).config == old(self).config,
            r == qual@[old(self).round_robin_index as int % qual@.len() as int],
            final(self).round_robin_index as int == (old(self).round_robin_index + 1) as int
                % qual@.len() as int,
    {
        let k = self.round_robin_index % qual.len();
        self.round_robin_index = (self.round_robin_index + 1) % qual.len();
        qual[k]
    }

    /// The position, among the given qualifying positions, of the first node
    /// with the fewest in-flight requests.
    fn select_least_loaded(&self, qual: &Vec<usize>) -> (r: usize)
        requires
            qual@.len() > 0,
            forall|p: int| 0 <= p < qual@.len() ==> #[trigger] qual@[p] < self.nodes@.len(),
            forall|p: int, q: int| 0 <= p < q < qual@.len() ==> qual@[p] < qual@[q],
        ensures
            exists|p: int| 0 <= p < qual@.len() && qual@[p] == r,
            forall|p: int|
                0 <= p < qual@.len() ==> self.nodes@[r as int].metrics.active_requests
                    <= self.nodes@[#[trigger] qual@[p] as int].metrics.active_requests,
            forall|p: int|
                0 <= p < qual@.len() && qual@[p] < r
                    ==> self.nodes@[#[trigger] qual@[p] as int].metrics.active_requests
                    > self.nodes@[r as int].metrics.active_requests,
    {
        let mut best: usize = qual[0];
        let mut p: usize = 1;
        while p < qual.len()
            invariant
                1 <= p <= qual@.len(),
                forall|q: int| 0 <= q < qual@.len() ==> #[trigger] qual@[q] < self.nodes@.len(),
                forall|q1: int, q2: int| 0 <= q1 < q2 < qual@.len() ==> qual@[q1] < qual@[q2],
                exists|q: int| 0 <= q < p && qual@[q] == best,
                forall|q: int|
                    0 <= q < p ==> self.nodes@[best as int].metrics.active_requests
                        <= self.nodes@[#[trigger] qual@[q] as int].metrics.active_requests,
                forall|q: int|
                    0 <= q < p && qual@[q] < best
                        ==> self.nodes@[#[trigger] qual@[q] as int].metrics.active_requests
                        > self.nodes@[best as int].metrics.active_requests,
            decreases qual@.len() - p,
        {
            let cand = qual[p];
            if self.nodes[cand].metrics.active_requests
                < self.nodes[best].metrics.active_requests {
                best = cand;
            }
            p += 1;
        }
        best
    }

    /// The position, among the given qualifying positions, of the first node
    /// with the lowest average response time.
    fn select_latency_based(&self, qual: &Vec<usize>) -> (r: usize)
        requires
            qual@.len() > 0,
            forall|p: int| 0 <= p < qual@.len() ==> #[trigger] qual@[p] < self.nodes@.len(),
            forall|p: int, q: int| 0 <= p < q < qual@.len() ==> qual@[p] < qual@[q],
        ensures
            exists|p: int| 0 <= p < qual@.len() && qual@[p] == r,
            forall|p: int|
                0 <= p < qual@.len() ==> self.nodes@[r as int].metrics.average_response_time_ms
                    <= self.nodes@[#[trigger] qual@[p] as int].metrics.average_response_time_ms,
            forall|p: int|
                0 <= p < qual@.len() && qual@[p] < r
                    ==> self.nodes@[#[trigger] qual@[p] as int].metrics.average_response_time_ms
                    > self.nodes@[r as int].metrics.average_response_time_ms,
    {
        let mut best: usize = qual[0];
        let mut p: usize = 1;
        while p < qual.len()
            invariant
                1 <= p <= qual@.len(),
                forall|q: int| 0 <= q < qual@.len() ==> #[trigger] qual@[q] < self.nodes@.len(),
                forall|q1: int, q2: int| 0 <= q1 < q2 < qual@.len() ==> qual@[q1] < qual@[q2],
                exists|q: int| 0 <= q < p && qual@[q] == best,
                forall|q: int|
                    0 <= q < p ==> self.nodes@[best as int].metrics.average_response_time_ms
                        <= self.nodes@[#[trigger] qual@[q] as int].metrics.average_response_time_ms,
                forall|q: int|
                    0 <= q < p && qual@[q] < best
                        ==> self.nodes@[#[trigger] qual@[q] as int].metrics.average_response_time_ms
                        > self.nodes@[best as int].metrics.average_response_time_ms,
            decreases qual@.len() - p,
        {
            let cand = qual[p];
            if self.nodes[cand].metrics.average_response_time_ms
                < self.nodes[best].metrics.average_response_time_ms {
                best = cand;
            }
            p += 1;
        }
        best
    }

    /// The position, among the given qualifying positions, of the first node
    /// with the highest capability score for `model`.
    fn select_capability_based(&self, qual: &Vec<usize>, model: &str) -> (r: usize)
        requires
            qual@.len() > 0,
            forall|p: int| 0 <= p < qual@.len() ==> #[trigger] qual@[p] < self.nodes@.len(),
            forall|p: int, q: int| 0 <= p < q < qual@.len() ==> qual@[p] < qual@[q],
        ensures
            exists|p: int| 0 <= p < qual@.len() && qual@[p] == r,
            forall|p: int|
                0 <= p < qual@.len() ==> spec_node_score(self.nodes@[r as int], model@)
                    >= spec_node_score(self.nodes@[#[trigger] qual@[p] as int], model@),
            forall|p: int|
                0 <= p < qual@.len() && qual@[p] < r ==> spec_node_score(
                    self.nodes@[#[trigger] qual@[p] as int],
                    model@,
                ) < spec_node_score(self.nodes@[r as int], model@),
    {
        let mut best: usize = qual[0];
        let mut best_score: i128 = self.node_score(qual[0], model);
        let mut p: usize = 1;
        while p < qual.len()
            invariant
                1 <= p <= qual@.len(),
                forall|q: int| 0 <= q < qual@.len() ==> #[trigger] qual@[q] < self.nodes@.len(),
                forall|q1: int, q2: int| 0 <= q1 < q2 < qual@.len() ==> qual@[q1] < qual@[q2],
                exists|q: int| 0 <= q < p && qual@[q] == best,
                best < self.nodes@.len(),
                best_score == spec_node_score(self.nodes@[best as int], model@),
                forall|q: int|
                    0 <= q < p ==> spec_node_score(self.nodes@[best as int], model@)
                        >= spec_node_score(self.nodes@[#[trigger] qual@[q] as int], model@),
                forall|q: int|
                    0 <= q < p && qual@[q] < best ==> spec_node_score(
                        self.nodes@[#[trigger] qual@[q] as int],
                        model@,
                    ) < spec_node_score(self.nodes@[best as int], model@),
            decreases qual@.len() - p,
        {
            let cand = qual[p];
            let cand_score = self.node_score(cand, model);
            if cand_score > best_score {
                best = cand;
                best_score = cand_score;
            }
            p += 1;
        }
        best
    }

    /// The capability score of the node at position `i` for `model`.
    fn node_score(&self, i: usize, model: &str) -> (r: i128)
        requires
            i < self.nodes@.len(),
        ensures
            r == spec_node_score(self.nodes@[i as int], model@),
    {
        let node = &self.nodes[i];
        let ctx = first_matching_ctx(node.client.models(), model);
        20000i128 + 2 * (ctx as i128) - (node.metrics.cpu_utilization as i128)
            - (node.metrics.memory_utilization as i128) - 2000 * (
        node.metrics.active_requests as i128)
    }

    /// Select a node for the given model using the configured strategy.
    ///
    /// The qualifying set holds the active nodes whose cached listing
    /// includes `model`, in node order; an empty set yields no node rather
    /// than an error. Round robin picks the cursor's position within that
    /// set and advances the cursor; the other strategies pick the first
    /// optimum and leave the cursor alone. In particular, under LeastLoaded
    /// the returned node's `active_requests` is no larger than any other
    /// qualifying node's, and under LatencyBased its
    /// `average_response_time_ms` is no larger than any other qualifying
    /// node's.
    pub fn select_node_for_model(&mut self, model: &str) -> (r: Option<LoadBalancerNode>)
        requires
            old(self).wf(),
        ensures
            final(self).wf(),
            final(self).nodes == old(self).nodes,
            final(self).config == old(self).config,
            (r is None) <==> qual_idxs(old(self).nodes@, model@).len() == 0,
            (r is None) <==> (forall|i: int|
                0 <= i < old(self).nodes@.len() ==> !qualifies(
                    #[trigger] old(self).nodes@[i],
                    model@,
                )),
            !(old(self).config.strategy == LoadBalancingStrategy::RoundRobin && r is Some)
                ==> final(self).round_robin_index == old(self).round_robin_index,
            r matches Some(n) ==> match old(self).config.strategy {
                LoadBalancingStrategy::RoundRobin => ({
                    let q = qual_idxs(old(self).nodes@, model@);
                    let k = old(self).round_robin_index as int % q.len() as int;
                    &&& eq_node(n, old(self).nodes@[q[k]])
                    &&& final(self).round_robin_index as int == (old(self).round_robin_index
                        + 1) as int % q.len() as int
                }),
                LoadBalancingStrategy::LeastLoaded => exists|i: int|
                    {
                        &&& 0 <= i < old(self).nodes@.len()
                        &&& qualifies(#[trigger] old(self).nodes@[i], model@)
                        &&& eq_node(n, old(self).nodes@[i])
                        &&& forall|j: int|
                            0 <= j < old(self).nodes@.len() && qualifies(
                                #[trigger] old(self).nodes@[j],
                                model@,
                            ) ==> old(self).nodes@[i].metrics.active_requests
                                <= old(self).nodes@[j].metrics.active_requests
                        &&& forall|j: int|
                            0 <= j < i && qualifies(#[trigger] old(self).nodes@[j], model@)
                                ==> old(self).nodes@[j].metrics.active_requests > old(
                                self,
                            ).nodes@[i].metrics.active_requests
                    },
                LoadBalancingStrategy::CapabilityBased => exists|i: int|
                    {
                        &&& 0 <= i < old(self).nodes@.len()
                        &&& qualifies(#[trigger] old(self).nodes@[i], model@)
                        &&& eq_node(n, old(self).nodes@[i])
                        &&& forall|j: int|
                            0 <= j < old(self).nodes@.len() && qualifies(
                                #[trigger] old(self).nodes@[j],
                                model@,
                            ) ==> spec_node_score(old(self).nodes@[i], model@) >= spec_node_score(
                                old(self).nodes@[j],
                                model@,
                            )
                        &&& forall|j: int|
                            0 <= j < i && qualifies(#[trigger] old(self).nodes@[j], model@)
                                ==> spec_node_score(old(self).nodes@[j], model@) < spec_node_score(
                                old(self).nodes@[i],
                                model@,
                            )
                    },
                LoadBalancingStrategy::LatencyBased => exists|i: int|
                    {
                        &&& 0 <= i < old(self).nodes@.len()
                        &&& qualifies(#[trigger] old(self).nodes@[i], model@)
                        &&& eq_node(n, old(self).nodes@[i])
                        &&& forall|j: int|
                            0 <= j < old(self).nodes@.len() && qualifies(
                                #[trigger] old(self).nodes@[j],
                                model@,
                            ) ==> old(self).nodes@[i].metrics.average_response_time_ms
                                <= old(self).nodes@[j].metrics.average_response_time_ms
                        &&& forall|j: int|
                            0 <= j < i && qualifies(#[trigger] old(self).nodes@[j], model@)
                                ==> old(self).nodes@[j].metrics.average_response_time_ms > old(
                                self,
                            ).nodes@[i].metrics.average_response_time_ms
                    },
            },
    {
        let ghost s = self.nodes@;
        let mut qual: Vec<usize> = Vec::new();
        let mut i: usize = 0;
        while i < self.nodes.len()
            invariant
                i <= self.nodes@.len(),
                self.nodes@ == s,
                qual@.map_values(|u: usize| u as int) == qual_idxs(s.take(i as int), model@),
                forall|p: int| 0 <= p < qual@.len() ==> #[trigger] qual@[p] < i,
            decreases self.nodes@.len() - i,
        {
            proof {
                assert(s.take(i + 1).drop_last() =~= s.take(i as int));
            }
            let node_active = self.nodes[i].active;
            let node_supports = self.nodes[i].client.supports_model(model);
            if node_active && node_supports {
                qual.push(i);
                proof {
                    assert(qual@.map_values(|u: usize| u as int) =~= qual_idxs(
                        s.take(i + 1),
                        model@,
                    ));
                }
            } else {
                proof {
                    assert(qual@.map_values(|u: usize| u as int) =~= qual_idxs(
                        s.take(i + 1),
                        model@,
                    ));
                }
            }
            i += 1;
        }
        proof {
            assert(s.take(s.len() as int) =~= s);
            lemma_qual_idxs(s, model@);
            lemma_no_qualifying(s, model@);
        }
        let ghost q = qual_idxs(s, model@);
        let ghost qm = qual@.map_values(|u: usize| u as int);
        if qual.len() == 0 {
            return None;
        }
        proof {
            assert forall|p: int, pp: int| 0 <= p < pp < qual@.len() implies qual@[p]
                < qual@[pp] by {
                assert(qm[p] == qual@[p] as int);
                assert(qm[pp] == qual@[pp] as int);
            }
            assert forall|p: int| 0 <= p < qual@.len() implies #[trigger] qual@[p]
                < self.nodes@.len() by {
                assert(qm[p] == qual@[p] as int);
            }
        }
        let chosen: usize = match self.config.strategy {
            LoadBalancingStrategy::RoundRobin => self.select_round_robin(&qual),
            LoadBalancingStrategy::LeastLoaded => self.select_least_loaded(&qual),
            LoadBalancingStrategy::CapabilityBased => self.select_capability_based(&qual, model),
            LoadBalancingStrategy::LatencyBased => self.select_latency_based(&qual),
        };
        proof {
            if self.config.strategy == LoadBalancingStrategy::RoundRobin {
                let k = old(self).round_robin_index as int % q.len() as int;
                assert(qm[k] == qual@[k] as int);
                assert(chosen as int == q[k]);
            } else {
                let p = choose|p: int| 0 <= p < qual@.len() && qual@[p] == chosen;
                assert(qm[p] == qual@[p] as int);
                assert(q[p] == chosen as int);
                assert(qualifies(s[chosen as int], model@));
                assert forall|j: int|
                    0 <= j < s.len() && qualifies(#[trigger] s[j], model@) implies exists|pp: int|
                    0 <= pp < qual@.len() && qual@[pp] as int == j by {
                    let pp = choose|pp: int| 0 <= pp < q.len() && q[pp] == j;
                    assert(qm[pp] == qual@[pp] as int);
                }
            }
        }
        Some(self.nodes[chosen].clone())
    }

    /// The capability score of node `node_id` for `model`: present exactly
    /// when the node exists and its listing includes the model.
    pub fn calculate_capability_score_for_model(&self, node_id: &str, model: &str) -> (r: Option<
        i128,
    >)
        ensures
            r is Some <==> (has_node(self.nodes@, node_id@) && spec_models_include(
                self.nodes@[find_idx(self.nodes@, node_id@)].client.spec_models(),
                model@,
            )),
            r matches Some(v) ==> v == spec_node_score(
                self.nodes@[find_idx(self.nodes@, node_id@)],
                model@,
            ),
    {
        proof {
            lemma_find_idx(self.nodes@, node_id@);
        }
        match self.find_node_index(node_id) {
            Some(i) => {
                let node = &self.nodes[i];
                if node.client.supports_model(model) {
                    Some(self.node_score(i, model))
                } else {
                    None
                }
            },
            None => None,
        }
    }
}

/// The subsequence of the active nodes of `s`, in node order.
pub open spec fn active_subseq(s: Seq<LoadBalancerNode>) -> Seq<LoadBalancerNode>
    decreases s.len(),
{
    if s.len() == 0 {
        Seq::empty()
    } else {
        let p = active_subseq(s.drop_last());
        if s.last().active {
            p.push(s.last())
        } else {
            p
        }
    }
}

/// The capability score for a node and a matching model description, on the
/// integer scale of [`spec_node_score`].
pub fn calculate_capability_score(node: &LoadBalancerNode, model_info: &ModelInfo) -> (r: i128)
    ensures
        r == 20000 + 2 * (model_info.max_context_length as int)
            - node.metrics.cpu_utilization as int - node.metrics.memory_utilization as int - 2000
            * node.metrics.active_requests as int,
{
    20000i128 + 2 * (model_info.max_context_length as i128) - (
    node.metrics.cpu_utilization as i128) - (node.metrics.memory_utilization as i128) - 2000 * (
    node.metrics.active_requests as i128)
}

/// The context length of the first model in `models` whose id is `model`,
/// or zero when none matches.
pub fn first_matching_ctx(models: &Vec<ModelInfo>, model: &str) -> (r: usize)
    ensures
        r == first_match_ctx_len(models@, model@),
{
    proof {
        assert(models@.skip(0) =~= models@);
    }
    let mut i: usize = 0;
    while i < models.len()
        invariant
            i <= models@.len(),
            first_match_ctx_len(models@, model@) == first_match_ctx_len(
                models@.skip(i as int),
                model@,
            ),
            forall|k: int| 0 <= k < i ==> (#[trigger] models@[k]).id@ != model@,
        decreases models@.len() - i,
    {
        proof {
            assert(models@.skip(i as int).drop_first() =~= models@.skip(i + 1));
            assert(models@.skip(i as int)[0] == models@[i as int]);
        }
        if crate::text::str_eq(models[i].id.as_str(), model) {
            return models[i].max_context_length;
        }
        i += 1;
    }
    proof {
        assert(models@.skip(models@.len() as int) =~= Seq::<ModelInfo>::empty());
    }
    0
}


/// The round-robin cursor after `k` selections over a stable qualifying
/// pool of size `len`, starting from `c`: each selection advances the
/// cursor by one modulo `len`, as `select_node_for_model` ensures.
pub open spec fn rr_cursor_after(c: int, k: nat, len: int) -> int
    decreases k,
{
    if k == 0 {
        c
    } else {
        (rr_cursor_after(c, (k - 1) as nat, len) + 1) % len
    }
}

/// After `k` selections the cursor is congruent to `c + k` modulo the pool
/// size, so the position picked at the k-th selection is `(c + k) % len`.
pub proof fn lemma_rr_cursor_after(c: int, k: nat, len: int)
    requires
        0 <= c,
        0 < len,
    ensures
        rr_cursor_after(c, k, len) % len == (c + k) % len,
        k > 0 ==> 0 <= rr_cursor_after(c, k, len) < len,
    decreases k,
{
    if k > 0 {
        lemma_rr_cursor_after(c, (k - 1) as nat, len);
        let prev = rr_cursor_after(c, (k - 1) as nat, len);
        vstd::arithmetic::div_mod::lemma_mod_bound(prev + 1, len);
        vstd::arithmetic::div_mod::lemma_add_mod_noop(prev, 1, len);
        vstd::arithmetic::div_mod::lemma_add_mod_noop(c + k - 1, 1, len);
        vstd::arithmetic::div_mod::lemma_mod_twice(prev + 1, len);
    }
}

/// Law: under round robin over a qualifying pool that stays unchanged, one
/// full cycle of as many selections as there are qualifying nodes visits
/// every qualifying position exactly once: with the cursor at `c`, the k-th
/// selection of the cycle picks position `(c + k) % len`, these positions
/// are pairwise distinct, and every position is picked at some step.
pub proof fn lemma_round_robin_cycle(c: int, len: int)
    requires
        0 <= c,
        0 < len,
    ensures
        forall|k1: int, k2: int|
            0 <= k1 < k2 < len ==> #[trigger] ((c + k1) % len) != #[trigger] ((c + k2) % len),
{
    assert forall|k1: int, k2: int| 0 <= k1 < k2 < len implies #[trigger] ((c + k1) % len)
        != #[trigger] ((c + k2) % len) by {
        if (c + k1) % len == (c + k2) % len {
            vstd::arithmetic::div_mod::lemma_mod_equivalence(c + k2, c + k1, len);
            vstd::arithmetic::div_mod::lemma_small_mod((k2 - k1) as nat, len as nat);
            assert(false);
        }
    }
}

/// Law, continued: the position picked `len` calls later is the same, so
/// one unchanged cycle repeats the previous cycle's picks in the same order.
pub proof fn lemma_round_robin_repeats(c: int, len: int, k: nat)
    requires
        0 <= c,
        0 < len,
    ensures
        rr_cursor_after(c, k + len as nat, len) % len == rr_cursor_after(c, k, len) % len,
{
    lemma_rr_cursor_after(c, k, len);
    lemma_rr_cursor_after(c, k + len as nat, len);
    vstd::arithmetic::div_mod::lemma_mod_add_multiples_vanish(c + k, len);
}

/// Law, continued: every qualifying position is picked at some step of a
/// full round-robin cycle.
pub proof fn lemma_round_robin_covers(c: int, len: int, i: int)
    requires
        0 <= c,
        0 < len,
        0 <= i < len,
    ensures
        exists|k: int| 0 <= k < len && #[trigger] ((c + k) % len) == i,
{
    let k = (i - c) % len;
    vstd::arithmetic::div_mod::lemma_mod_bound(i - c, len);
    vstd::arithmetic::div_mod::lemma_add_mod_noop_right(c, i - c, len);
    vstd::arithmetic::div_mod::lemma_small_mod(i as nat, len as nat);
    assert((c + k) % len == i);
}

/// Law: registering a node in an empty registry and then removing it by its
/// id leaves the registry empty again, so selection for any model yields no
/// node.
pub proof fn lemma_add_remove_round_trip(
    s: Seq<LoadBalancerNode>,
    n: LoadBalancerNode,
    model: Seq<char>,
)
    requires
        s.len() == 0,
    ensures
        spec_remove_node(spec_add_node(s, n), n.id@).len() == 0,
        qual_idxs(spec_remove_node(spec_add_node(s, n), n.id@), model).len() == 0,
{
    let s1 = spec_add_node(s, n);
    assert(!has_node(s, n.id@));
    assert(s1 == s.push(n));
    assert(s1[0].id@ == n.id@);
    assert(has_node(s1, n.id@));
    lemma_find_idx(s1, n.id@);
    let s2 = spec_remove_node(s1, n.id@);
    assert(find_idx(s1, n.id@) == 0);
    assert(s2.len() == 0);
}

/// Law: overwriting a node's metrics twice with the same snapshot succeeds
/// both times, and the second overwrite leaves the registry exactly as the
/// first left it.
pub proof fn lemma_update_metrics_idempotent(
    s: Seq<LoadBalancerNode>,
    id: Seq<char>,
    m: NodeMetrics,
)
    requires
        has_node(s, id),
    ensures
        has_node(spec_update_metrics(s, id, m), id),
        spec_update_metrics(spec_update_metrics(s, id, m), id, m) == spec_update_metrics(
            s,
            id,
            m,
        ),
{
    lemma_find_idx(s, id);
    let i = find_idx(s, id);
    let s1 = spec_update_metrics(s, id, m);
    assert(s1[i].id@ == id);
    assert(has_node(s1, id));
    lemma_find_idx(s1, id);
    let j = find_idx(s1, id);
    assert forall|k: int| 0 <= k < s1.len() implies (#[trigger] s1[k]).id@ == s[k].id@ by {}
    if j < i {
        assert(s[j].id@ == id);
        assert(false);
    }
    if j > i {
        assert(s1[i].id@ != id);
        assert(false);
    }
    assert(j == i);
    let updated = LoadBalancerNode { metrics: m, ..s1[i] };
    assert(updated == s1[i]);
    assert(spec_update_metrics(s1, id, m) =~= s1);
}

} // verus!
