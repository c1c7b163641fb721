use vstd::prelude::*;
use crate::session::{ClientInfo, ConnStatus, Session, info_of};

verus! {

/// The registry key: (account identifier, protocol variant).
pub type AccountKey = (i64, u8);

#[verifier::external_type_specification]
#[verifier::external_body]
#[verifier::reject_recursive_types(K)]
#[verifier::reject_recursive_types(V)]
#[verifier::reject_recursive_types(S)]
pub struct ExDashMap<K, V, S>(dashmap::DashMap<K, V, S>);

/// The shared concurrent map the registry is built on.
pub type SessionTable = dashmap::DashMap<AccountKey, Session>;

/// One listed entry: a key and the session under it.
pub type SessionEntry = (AccountKey, Session);

/// What the shared map holds: one session per (account, protocol) key.
pub uninterp spec fn session_map(m: SessionTable) -> Map<AccountKey, Session>;

/// The empty model map.
pub open spec fn no_sessions() -> Map<AccountKey, Session> {
    Map::empty()
}

/// Relies on dashmap::DashMap::new: a fresh map holds nothing.
#[verifier::external_body]
fn map_new() -> (m: SessionTable)
    ensures
        session_map(m) == no_sessions(),
{
    dashmap::DashMap::new()
}

/// Relies on dashmap::DashMap::insert: stores the value under the key,
/// returning the value that was there before, if any.
#[verifier::external_body]
fn map_insert(m: &mut SessionTable, key: AccountKey, s: Session) -> (prev:
    Option<Session>)
    ensures
        session_map(*final(m)) == session_map(*old(m)).insert(key, s),
        prev matches Some(p) ==> session_map(*old(m)).contains_pair(key, p),
        prev is None ==> !session_map(*old(m)).contains_key(key),
{
    m.insert(key, s)
}

/// Relies on dashmap::DashMap::remove: takes the entry under the key out of
/// the map and returns it, if it was there.
#[verifier::external_body]
fn map_remove(m: &mut SessionTable, key: AccountKey) -> (r: Option<Session>)
    ensures
        session_map(*final(m)) == session_map(*old(m)).remove(key),
        r matches Some(s) ==> session_map(*old(m)).contains_pair(key, s),
        r is None ==> !session_map(*old(m)).contains_key(key),
{
    m.remove(&key).map(|kv| kv.1)
}

/// Relies on dashmap::DashMap::iter: the iterator yields every entry exactly
/// once, in no guaranteed order.
#[verifier::external_body]
fn map_pairs(m: &SessionTable) -> (v: Vec<SessionEntry>)
    ensures
        forall|i: int|
            0 <= i < v@.len() ==> session_map(*m).contains_pair(#[trigger] v@[i].0, v@[i].1),
        forall|k: AccountKey|
            session_map(*m).contains_key(k) ==> exists|i: int| 0 <= i < v@.len() && (#[trigger] v@[i]).0 == k,
        forall|i: int, j: int| 0 <= i < j < v@.len() ==> v@[i].0 != v@[j].0,
{
    m.iter().map(|e| (*e.key(), e.value().clone())).collect()
}

/// The concurrent mapping from (account identifier, protocol variant) to the
/// owned session record. Keys are unique; a registration for a key that is
/// already present replaces the whole record, last write wins.
pub struct Registry {
    map: SessionTable,
}

impl Registry {
    /// The sessions now registered, keyed by (account, protocol variant).
    pub closed spec fn sessions(&self) -> Map<AccountKey, Session> {
        session_map(self.map)
    }

    /// Every session sits under its own key.
    pub open spec fn wf(&self) -> bool {
        forall|k: AccountKey|
            self.sessions().contains_key(k) ==> (#[trigger] self.sessions()[k]).uin == k.0
                && self.sessions()[k].protocol == k.1
    }

    /// An empty registry.
    pub fn new() -> (r: Registry)
        ensures
            r.sessions() == no_sessions(),
            r.wf(),
    {
        Registry { map: map_new() }
    }

    /// Insert or replace the session under its own key, returning the record
    /// it displaced, if any.
    pub fn register(&mut self, s: Session) -> (prev: Option<Session>)
        requires
            old(self).wf(),
        ensures
            final(self).sessions() == old(self).sessions().insert((s.uin, s.protocol), s),
            final(self).wf(),
            prev matches Some(p) ==> old(self).sessions().contains_pair((s.uin, s.protocol), p),
            prev is None ==> !old(self).sessions().contains_key((s.uin, s.protocol)),
    {
        let key = (s.uin, s.protocol);
        map_insert(&mut self.map, key, s)
    }

    /// Remove and return the session under the key; a no-op returning `None`
    /// when the key is absent.
    pub fn remove(&mut self, uin: i64, protocol: u8) -> (r: Option<Session>)
        requires
            old(self).wf(),
        ensures
            final(self).sessions() == old(self).sessions().remove((uin, protocol)),
            final(self).wf(),
            r matches Some(s) ==> old(self).sessions().contains_pair((uin, protocol), s),
            r is None ==> !old(self).sessions().contains_key((uin, protocol)),
    {
        map_remove(&mut self.map, (uin, protocol))
    }

    /// Overwrite the stored connectivity status of the session under the key,
    /// if it is registered; report whether it was.
    pub fn update_status(&mut self, uin: i64, protocol: u8, status: ConnStatus) -> (found: bool)
        requires
            old(self).wf(),
        ensures
            final(self).wf(),
            found == old(self).sessions().contains_key((uin, protocol)),
            found ==> final(self).sessions() == old(self).sessions().insert(
                (uin, protocol),
                (Session {
                    uin: old(self).sessions()[(uin, protocol)].uin,
                    protocol: old(self).sessions()[(uin, protocol)].protocol,
                    nickname: old(self).sessions()[(uin, protocol)].nickname,
                    status,
                }),
            ),
            !found ==> final(self).sessions() == old(self).sessions(),
    {
        match map_remove(&mut self.map, (uin, protocol)) {
            Some(mut s) => {
                s.status = status;
                map_insert(&mut self.map, (uin, protocol), s);
                proof {
                    assert(self.sessions() =~= old(self).sessions().insert(
                        (uin, protocol),
                        (Session {
                            uin: old(self).sessions()[(uin, protocol)].uin,
                            protocol: old(self).sessions()[(uin, protocol)].protocol,
                            nickname: old(self).sessions()[(uin, protocol)].nickname,
                            status,
                        }),
                    ));
                }
                true
            },
            None => {
                proof {
                    assert(self.sessions() =~= old(self).sessions());
                }
                false
            },
        }
    }

    /// Snapshot listing: one row per registered session, carrying the stored
    /// nickname and status; no order is guaranteed, keys never repeat.
    pub fn list_client(&self) -> (r: Vec<ClientInfo>)
        requires
            self.wf(),
        ensures
            forall|i: int|
                0 <= i < r@.len() ==> self.sessions().contains_key(
                    ((#[trigger] r@[i]).uin, r@[i].protocol),
                ) && r@[i] == info_of(self.sessions()[(r@[i].uin, r@[i].protocol)]),
            forall|k: AccountKey|
                self.sessions().contains_key(k) ==> exists|i: int|
                    0 <= i < r@.len() && ((#[trigger] r@[i]).uin, r@[i].protocol) == k,
            forall|i: int, j: int|
                0 <= i < j < r@.len() ==> (r@[i].uin, r@[i].protocol) != (r@[j].uin, r@[j].protocol),
    {
        let pairs = map_pairs(&self.map);
        let mut out: Vec<ClientInfo> = Vec::new();
        let mut i: usize = 0;
        while i < pairs.len()
            invariant
                self.wf(),
                i <= pairs@.len(),
                out@.len() == i,
                forall|t: int|
                    0 <= t < pairs@.len() ==> self.sessions().contains_pair(
                        #[trigger] pairs@[t].0,
                        pairs@[t].1,
                    ),
                forall|k: AccountKey|
                    self.sessions().contains_key(k) ==> exists|t: int|
                        0 <= t < pairs@.len() && (#[trigger] pairs@[t]).0 == k,
                forall|t: int, u: int| 0 <= t < u < pairs@.len() ==> pairs@[t].0 != pairs@[u].0,
                forall|t: int|
                    0 <= t < i ==> ((#[trigger] out@[t]).uin, out@[t].protocol) == pairs@[t].0
                        && out@[t] == info_of(self.sessions()[pairs@[t].0]),
            decreases pairs@.len() - i,
    {
            let info = pairs[i].1.to_info();
            proof {
                assert(self.sessions().contains_pair(pairs@[i as int].0, pairs@[i as int].1));
            }
            out.push(info);
            i = i + 1;
        }
        proof {
            assert forall|k: AccountKey| self.sessions().contains_key(k) implies exists|t: int|
                0 <= t < out@.len() && ((#[trigger] out@[t]).uin, out@[t].protocol) == k by {
                let t = choose|t: int| 0 <= t < pairs@.len() && (#[trigger] pairs@[t]).0 == k;
                assert(((out@[t]).uin, out@[t].protocol) == k);
            }
        }
        out
    }
}

/// One operation on the registry, for stating what histories of concurrent
/// registrations and removals may produce.
pub enum RegistryOp {
    Register { session: Session },
    Remove { uin: i64, protocol: u8 },
}

/// The key an operation touches.
pub open spec fn op_key(op: RegistryOp) -> AccountKey {
    match op {
        RegistryOp::Register { session } => (session.uin, session.protocol),
        RegistryOp::Remove { uin, protocol } => (uin, protocol),
    }
}

/// The effect of one operation on the model map, as `register` and `remove`
/// ensure it.
pub open spec fn apply_op(m: Map<AccountKey, Session>, op: RegistryOp) -> Map<AccountKey, Session> {
    match op {
        RegistryOp::Register { session } => m.insert((session.uin, session.protocol), session),
        RegistryOp::Remove { uin, protocol } => m.remove((uin, protocol)),
    }
}

/// One serialization: the operations applied in sequence order.
pub open spec fn apply_ops(m: Map<AccountKey, Session>, ops: Seq<RegistryOp>) -> Map<
    AccountKey,
    Session,
>
    decreases ops.len(),
{
    if ops.len() == 0 {
        m
    } else {
        apply_ops(apply_op(m, ops[0]), ops.drop_first())
    }
}

/// Law: two operations on distinct keys commute. Any interleaving of
/// concurrent registrations and removals on distinct keys therefore reaches
/// the state of some serialization of them: adjacent swaps of independent
/// operations change nothing.
pub proof fn lemma_distinct_ops_commute(m: Map<AccountKey, Session>, a: RegistryOp, b: RegistryOp)
    requires
        op_key(a) != op_key(b),
    ensures
        apply_op(apply_op(m, a), b) == apply_op(apply_op(m, b), a),
{
    assert(apply_op(apply_op(m, a), b) =~= apply_op(apply_op(m, b), a));
}

/// Law: swapping two adjacent operations on distinct keys never changes the
/// final state. Chains of such swaps carry any interleaving of independent
/// operations into any serialization of them, so every interleaving of
/// operations on distinct keys ends in the state of some serialization.
pub proof fn lemma_adjacent_swap(m: Map<AccountKey, Session>, ops: Seq<RegistryOp>, i: int)
    requires
        0 <= i,
        i + 1 < ops.len(),
        op_key(ops[i]) != op_key(ops[i + 1]),
    ensures
        apply_ops(m, ops) == apply_ops(m, ops.update(i, ops[i + 1]).update(i + 1, ops[i])),
    decreases i,
{
    let swapped = ops.update(i, ops[i + 1]).update(i + 1, ops[i]);
    if i == 0 {
        lemma_distinct_ops_commute(m, ops[0], ops[1]);
        assert(apply_ops(m, ops) == apply_ops(apply_op(m, ops[0]), ops.drop_first()));
        assert(ops.drop_first()[0] == ops[1]);
        assert(apply_ops(apply_op(m, ops[0]), ops.drop_first()) == apply_ops(
            apply_op(apply_op(m, ops[0]), ops[1]),
            ops.drop_first().drop_first(),
        ));
        assert(swapped[0] == ops[1] && swapped[1] == ops[0]);
        assert(apply_ops(m, swapped) == apply_ops(apply_op(m, ops[1]), swapped.drop_first()));
        assert(swapped.drop_first()[0] == ops[0]);
        assert(apply_ops(apply_op(m, ops[1]), swapped.drop_first()) == apply_ops(
            apply_op(apply_op(m, ops[1]), ops[0]),
            swapped.drop_first().drop_first(),
        ));
        assert(swapped.drop_first().drop_first() =~= ops.drop_first().drop_first());
    } else {
        lemma_adjacent_swap(apply_op(m, ops[0]), ops.drop_first(), i - 1);
        assert(swapped[0] == ops[0]);
        assert(swapped.drop_first() =~= ops.drop_first().update(i - 1, ops[i + 1]).update(
            i,
            ops[i],
        ));
        assert(ops.drop_first()[i - 1] == ops[i] && ops.drop_first()[i] == ops[i + 1]);
    }
}

/// Law: a run of operations that never touches `k` leaves the entry under
/// `k` exactly as it was.
pub proof fn lemma_key_untouched(m: Map<AccountKey, Session>, ops: Seq<RegistryOp>, k: AccountKey)
    requires
        forall|j: int| 0 <= j < ops.len() ==> op_key(#[trigger] ops[j]) != k,
    ensures
        apply_ops(m, ops).contains_key(k) == m.contains_key(k),
        m.contains_key(k) ==> apply_ops(m, ops)[k] == m[k],
    decreases ops.len(),
{
    if ops.len() > 0 {
        lemma_key_untouched(apply_op(m, ops[0]), ops.drop_first(), k);
    }
}

/// Law: no update is lost. When every operation of a history touches its own
/// key, the final state holds, for each key, exactly what the one operation
/// on that key wrote: the session it registered, or no entry if it removed.
pub proof fn lemma_no_lost_update(m: Map<AccountKey, Session>, ops: Seq<RegistryOp>, i: int)
    requires
        0 <= i < ops.len(),
        forall|p: int, q: int|
            0 <= p < q < ops.len() ==> op_key(#[trigger] ops[p]) != op_key(#[trigger] ops[q]),
    ensures
        ops[i] matches RegistryOp::Register { session } ==> apply_ops(m, ops).contains_pair(
            (session.uin, session.protocol),
            session,
        ),
        ops[i] matches RegistryOp::Remove { uin, protocol } ==> !apply_ops(m, ops).contains_key(
            (uin, protocol),
        ),
    decreases ops.len(),
{
    if i == 0 {
        assert(forall|j: int|
            0 <= j < ops.drop_first().len() ==> op_key(#[trigger] ops.drop_first()[j]) != op_key(
                ops[0],
            ));
        lemma_key_untouched(apply_op(m, ops[0]), ops.drop_first(), op_key(ops[0]));
    } else {
        lemma_no_lost_update(apply_op(m, ops[0]), ops.drop_first(), i - 1);
        assert(ops.drop_first()[i - 1] == ops[i]);
    }
}

} // verus!
