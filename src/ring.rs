//! Token-aware replica selection. A ring is an immutable value: a new topology
//! is a new ring, which the owner publishes in place of the old one.
use vstd::prelude::*;

verus! {

/// One replica: a node and its datacenter.
#[derive(Clone, Copy, PartialEq, Eq, Structural, Debug)]
pub struct Replica {
    pub node: u32,
    pub datacenter: u32,
}

/// Start tokens of the ranges, in increasing order, each with the index of the
/// replica set that owns the range, and the replica sets themselves.
pub struct Ring {
    pub tokens: Vec<(i64, usize)>,
    pub replicas: Vec<Vec<Replica>>,
}

/// The range that owns token `t`: the first whose start token is at least `t`,
/// or the first of the ring when no start token is.
pub open spec fn owner_index(tokens: Seq<(i64, usize)>, t: i64) -> int {
    if exists|i: int| 0 <= i < tokens.len() && #[trigger] tokens[i].0 >= t {
        choose|i: int| #[trigger] first_at_least(tokens, t, i)
    } else {
        0
    }
}

/// Whether range `i` is the first whose start token is at least `t`.
pub open spec fn first_at_least(tokens: Seq<(i64, usize)>, t: i64, i: int) -> bool {
    0 <= i < tokens.len() && tokens[i].0 >= t && (i == 0 || tokens[i - 1].0 < t)
}

/// The replicas of a set that stand in a given datacenter, in order.
pub open spec fn in_datacenter(set: Seq<Replica>, dc: u32) -> Seq<Replica> {
    set.filter(|r: Replica| r.datacenter == dc)
}

impl Ring {
    /// Start tokens strictly increase, and every range names a replica set.
    pub open spec fn wf(&self) -> bool {
        &&& self.tokens@.len() > 0
        &&& forall|i: int, j: int| 0 <= i < j < self.tokens@.len() ==> self.tokens@[i].0 < self.tokens@[j].0
        &&& forall|i: int| 0 <= i < self.tokens@.len() ==> (#[trigger] self.tokens@[i]).1 < self.replicas@.len()
    }

    /// The index of the range that owns token `t`, found by binary search.
    pub fn owner(&self, t: i64) -> (r: usize)
        requires
            self.wf(),
        ensures
            r == owner_index(self.tokens@, t),
            r < self.tokens@.len(),
    {
        let n = self.tokens.len();
        if self.tokens[n - 1].0 < t {
            proof {
                assert forall|i: int| 0 <= i < n implies !(#[trigger] self.tokens@[i].0 >= t) by {
                    if i < n - 1 {
                        assert(self.tokens@[i].0 < self.tokens@[n - 1].0);
                    }
                }
            }
            return 0;
        }
        let mut lo: usize = 0;
        let mut hi: usize = n - 1;
        while lo < hi
            invariant
                n == self.tokens@.len(),
                self.wf(),
                0 <= lo <= hi < n,
                self.tokens@[hi as int].0 >= t,
                lo > 0 ==> self.tokens@[lo - 1].0 < t,
            decreases hi - lo,
        {
            let mid = lo + (hi - lo) / 2;
            if self.tokens[mid].0 >= t {
                hi = mid;
            } else {
                lo = mid + 1;
            }
        }
        proof {
            assert(self.tokens@[lo as int].0 >= t);
            assert(lo == 0 || self.tokens@[lo - 1].0 < t);
            assert(first_at_least(self.tokens@, t, lo as int));
            let w = choose|i: int| #[trigger] first_at_least(self.tokens@, t, i);
            if w < lo {
                assert(self.tokens@[w].0 <= self.tokens@[lo - 1].0);
            }
            if w > lo {
                assert(self.tokens@[lo as int].0 <= self.tokens@[w - 1].0);
            }
        }
        lo
    }

    /// The replica set that owns token `t`.
    pub fn replicas_for(&self, t: i64) -> (r: &Vec<Replica>)
        requires
            self.wf(),
        ensures
            r@ == self.replicas@[self.tokens@[owner_index(self.tokens@, t)].1 as int]@,
    {
        let i = self.owner(t);
        &self.replicas[self.tokens[i].1]
    }

    /// A replica of token `t` in datacenter `dc`, chosen by `random`.
    pub fn local_replica(&self, t: i64, dc: u32, random: u64) -> (r: Option<Replica>)
        requires
            self.wf(),
        ensures
            ({
                let local = in_datacenter(self.replicas@[self.tokens@[owner_index(self.tokens@, t)].1 as int]@, dc);
                &&& r is Some <==> local.len() > 0
                &&& r is Some ==> r->0 == local[(random % local.len() as u64) as int]
            }),
    {
        let set = self.replicas_for(t);
        let mut local: Vec<Replica> = Vec::new();
        let mut i: usize = 0;
        while i < set.len()
            invariant
                i <= set@.len(),
                local@ == in_datacenter(set@.take(i as int), dc),
            decreases set@.len() - i,
        {
            let r = set[i];
            if r.datacenter == dc {
                local.push(r);
            }
            proof {
                let t2 = set@.take(i + 1);
                assert(t2.drop_last() =~= set@.take(i as int));
                reveal(Seq::filter);
            }
            i = i + 1;
        }
        assert(set@.take(set@.len() as int) =~= set@);
        if local.len() == 0 {
            None
        } else {
            Some(local[(random % local.len() as u64) as usize])
        }
    }

    /// A replica of token `t` in any datacenter, chosen by `random`.
    pub fn global_replica(&self, t: i64, random: u64) -> (r: Option<Replica>)
        requires
            self.wf(),
        ensures
            ({
                let set = self.replicas@[self.tokens@[owner_index(self.tokens@, t)].1 as int]@;
                &&& r is Some <==> set.len() > 0
                &&& r is Some ==> r->0 == set[(random % set.len() as u64) as int]
            }),
    {
        let set = self.replicas_for(t);
        if set.len() == 0 {
            None
        } else {
            Some(set[(random % set.len() as u64) as usize])
        }
    }
}

/// The replica set of range `i` under SimpleStrategy: its node and the next
/// `rf - 1` nodes around the ring.
pub open spec fn simple_set(nodes: Seq<Replica>, i: int, rf: int) -> Seq<Replica> {
    Seq::new(rf as nat, |k: int| nodes[(i + k) % nodes.len() as int])
}

/// Builds a ring under SimpleStrategy from start tokens in increasing order,
/// each with the replica that owns it.
pub fn simple_ring(owners: &Vec<(i64, Replica)>, rf: usize) -> (r: Ring)
    requires
        owners@.len() > 0,
        rf <= owners@.len(),
        forall|i: int, j: int| 0 <= i < j < owners@.len() ==> owners@[i].0 < owners@[j].0,
    ensures
        r.wf(),
        r.tokens@.len() == owners@.len(),
        forall|i: int| 0 <= i < owners@.len() ==> (#[trigger] r.tokens@[i]).0 == owners@[i].0 && r.tokens@[i].1 == i,
        forall|i: int| 0 <= i < owners@.len() ==> (#[trigger] r.replicas@[i])@ == simple_set(owners@.map_values(|o: (i64, Replica)| o.1), i, rf as int),
{
    let n = owners.len();
    let ghost nodes = owners@.map_values(|o: (i64, Replica)| o.1);
    let mut tokens: Vec<(i64, usize)> = Vec::new();
    let mut replicas: Vec<Vec<Replica>> = Vec::new();
    let mut i: usize = 0;
    while i < n
        invariant
            n == owners@.len(),
            rf <= n,
            nodes == owners@.map_values(|o: (i64, Replica)| o.1),
            i <= n,
            tokens@.len() == i,
            replicas@.len() == i,
            forall|j: int| 0 <= j < i ==> (#[trigger] tokens@[j]).0 == owners@[j].0 && tokens@[j].1 == j,
            forall|j: int| 0 <= j < i ==> (#[trigger] replicas@[j])@ == simple_set(nodes, j, rf as int),
        decreases n - i,
    {
        let mut set: Vec<Replica> = Vec::new();
        let mut k: usize = 0;
        while k < rf
            invariant
                n == owners@.len(),
                rf <= n,
                i < n,
                k <= rf,
                nodes == owners@.map_values(|o: (i64, Replica)| o.1),
                set@ == simple_set(nodes, i as int, rf as int).take(k as int),
            decreases rf - k,
        {
            let at = if k < n - i { i + k } else { k - (n - i) };
            proof {
                let a = i as int + k as int;
                let m = n as int;
                if a < m {
                    vstd::arithmetic::div_mod::lemma_small_mod(a as nat, m as nat);
                } else {
                    vstd::arithmetic::div_mod::lemma_small_mod((a - m) as nat, m as nat);
                    vstd::arithmetic::div_mod::lemma_mod_sub_multiples_vanish(a, m);
                }
            }
            assert(at == (i + k) % (n as int));
            set.push(owners[at].1);
            k = k + 1;
            assert(set@ =~= simple_set(nodes, i as int, rf as int).take(k as int));
        }
        assert(set@ =~= simple_set(nodes, i as int, rf as int));
        tokens.push((owners[i].0, i));
        replicas.push(set);
        i = i + 1;
    }
    Ring { tokens, replicas }
}

/// How a keyspace places its replicas.
pub enum Strategy {
    /// This many replicas, on consecutive nodes around the ring.
    Simple(usize),
    /// For each datacenter, this many replicas of it, taken around the ring.
    NetworkTopology(Vec<(u32, usize)>),
}

/// The replication factor of a datacenter: that of its first entry, zero without one.
pub open spec fn dc_rf(rfs: Seq<(u32, usize)>, dc: u32) -> int
    decreases rfs.len(),
{
    if rfs.len() == 0 {
        0
    } else if rfs[0].0 == dc {
        rfs[0].1 as int
    } else {
        dc_rf(rfs.skip(1), dc)
    }
}

/// How many replicas of a set stand in a datacenter.
pub open spec fn count_dc(set: Seq<Replica>, dc: u32) -> int
    decreases set.len(),
{
    if set.len() == 0 {
        0
    } else {
        count_dc(set.drop_last(), dc) + if set.last().datacenter == dc { 1int } else { 0int }
    }
}

/// The replicas chosen after looking at `k` nodes from range `i` on: a node
/// is taken while its datacenter still wants replicas.
pub open spec fn topology_walk(nodes: Seq<Replica>, i: int, rfs: Seq<(u32, usize)>, k: nat) -> Seq<Replica>
    decreases k,
{
    if k == 0 {
        Seq::empty()
    } else {
        let prev = topology_walk(nodes, i, rfs, (k - 1) as nat);
        let node = nodes[(i + k - 1) % nodes.len() as int];
        if count_dc(prev, node.datacenter) < dc_rf(rfs, node.datacenter) {
            prev.push(node)
        } else {
            prev
        }
    }
}

/// The replica set of range `i` under NetworkTopologyStrategy: one pass around the ring.
pub open spec fn topology_set(nodes: Seq<Replica>, i: int, rfs: Seq<(u32, usize)>) -> Seq<Replica> {
    topology_walk(nodes, i, rfs, nodes.len())
}

/// The replication factor of a datacenter.
fn rf_of(rfs: &Vec<(u32, usize)>, dc: u32) -> (r: usize)
    ensures
        r == dc_rf(rfs@, dc),
{
    let mut j: usize = 0;
    assert(rfs@.skip(0) =~= rfs@);
    while j < rfs.len()
        invariant
            j <= rfs@.len(),
            dc_rf(rfs@, dc) == dc_rf(rfs@.skip(j as int), dc),
        decreases rfs@.len() - j,
    {
        if rfs[j].0 == dc {
            return rfs[j].1;
        }
        assert(rfs@.skip(j as int).skip(1) =~= rfs@.skip(j + 1));
        j = j + 1;
    }
    assert(rfs@.skip(j as int) =~= Seq::<(u32, usize)>::empty());
    0
}

/// How many replicas of a set stand in a datacenter.
fn count_in(set: &Vec<Replica>, dc: u32) -> (r: usize)
    ensures
        r == count_dc(set@, dc),
{
    let mut c: usize = 0;
    let mut j: usize = 0;
    while j < set.len()
        invariant
            j <= set@.len(),
            c <= j,
            c == count_dc(set@.take(j as int), dc),
        decreases set@.len() - j,
    {
        if set[j].datacenter == dc {
            c = c + 1;
        }
        j = j + 1;
        assert(set@.take(j as int).drop_last() =~= set@.take(j - 1));
    }
    assert(set@.take(j as int) =~= set@);
    c
}

/// The replica set of range `i` under NetworkTopologyStrategy.
fn topology_replicas(owners: &Vec<(i64, Replica)>, i: usize, rfs: &Vec<(u32, usize)>) -> (r: Vec<Replica>)
    requires
        i < owners@.len(),
    ensures
        r@ == topology_set(owners@.map_values(|o: (i64, Replica)| o.1), i as int, rfs@),
{
    let n = owners.len();
    let ghost nodes = owners@.map_values(|o: (i64, Replica)| o.1);
    let mut set: Vec<Replica> = Vec::new();
    let mut k: usize = 0;
    while k < n
        invariant
            n == owners@.len(),
            i < n,
            k <= n,
            nodes == owners@.map_values(|o: (i64, Replica)| o.1),
            set@ == topology_walk(nodes, i as int, rfs@, k as nat),
        decreases n - k,
    {
        let at = if k < n - i { i + k } else { k - (n - i) };
        proof {
            let a = i as int + k as int;
            let m = n as int;
            if a < m {
                vstd::arithmetic::div_mod::lemma_small_mod(a as nat, m as nat);
            } else {
                vstd::arithmetic::div_mod::lemma_small_mod((a - m) as nat, m as nat);
                vstd::arithmetic::div_mod::lemma_mod_sub_multiples_vanish(a, m);
            }
        }
        let node = owners[at].1;
        if count_in(&set, node.datacenter) < rf_of(rfs, node.datacenter) {
            set.push(node);
        }
        k = k + 1;
    }
    set
}

/// Builds a ring from start tokens in increasing order, each with the replica
/// that owns it, placing replicas as the strategy says.
pub fn build_ring(owners: &Vec<(i64, Replica)>, strategy: &Strategy) -> (r: Ring)
    requires
        owners@.len() > 0,
        forall|i: int, j: int| 0 <= i < j < owners@.len() ==> owners@[i].0 < owners@[j].0,
    ensures
        r.wf(),
        r.tokens@.len() == owners@.len(),
        forall|i: int| 0 <= i < owners@.len() ==> (#[trigger] r.tokens@[i]).0 == owners@[i].0 && r.tokens@[i].1 == i,
        forall|i: int| 0 <= i < owners@.len() ==> (#[trigger] r.replicas@[i])@ == match strategy {
            Strategy::Simple(rf) => simple_set(
                owners@.map_values(|o: (i64, Replica)| o.1), i,
                if *rf <= owners@.len() { *rf as int } else { owners@.len() as int },
            ),
            Strategy::NetworkTopology(rfs) => topology_set(owners@.map_values(|o: (i64, Replica)| o.1), i, rfs@),
        },
{
    match strategy {
        Strategy::Simple(rf) => {
            let rf = if *rf <= owners.len() { *rf } else { owners.len() };
            simple_ring(owners, rf)
        },
        Strategy::NetworkTopology(rfs) => {
            let n = owners.len();
            let ghost nodes = owners@.map_values(|o: (i64, Replica)| o.1);
            let mut tokens: Vec<(i64, usize)> = Vec::new();
            let mut replicas: Vec<Vec<Replica>> = Vec::new();
            let mut i: usize = 0;
            while i < n
                invariant
                    n == owners@.len(),
                    nodes == owners@.map_values(|o: (i64, Replica)| o.1),
                    i <= n,
                    tokens@.len() == i,
                    replicas@.len() == i,
                    forall|j: int| 0 <= j < i ==> (#[trigger] tokens@[j]).0 == owners@[j].0 && tokens@[j].1 == j,
                    forall|j: int| 0 <= j < i ==> (#[trigger] replicas@[j])@ == topology_set(nodes, j, rfs@),
                decreases n - i,
            {
                let set = topology_replicas(owners, i, rfs);
                tokens.push((owners[i].0, i));
                replicas.push(set);
                i = i + 1;
            }
            Ring { tokens, replicas }
        },
    }
}

} // verus!
