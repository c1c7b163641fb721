use vstd::prelude::*;
use crate::registry::{AccountKey, Registry, no_sessions};
use crate::session::{ClientInfo, ConnStatus, Session, info_of};

verus! {

/// The façade driven by the external login flows and HTTP handlers. It owns
/// the session registry; the three background activities of a session
/// (dispatcher, supervisor, poller) are loops the caller runs around this
/// crate's decision functions, and none of these entry points waits on them.
pub struct Processor {
    registry: Registry,
}

impl Processor {
    /// The sessions now registered.
    pub closed spec fn sessions(&self) -> Map<AccountKey, Session> {
        self.registry.sessions()
    }

    /// Every session sits under its own key.
    pub closed spec fn wf(&self) -> bool {
        self.registry.wf()
    }

    /// A processor with no sessions.
    pub fn new() -> (r: Processor)
        ensures
            r.sessions() == no_sessions(),
            r.wf(),
    {
        Processor { registry: Registry::new() }
    }

    /// A login flow completed: register the fresh session under its own key,
    /// replacing (and returning) whatever record sat there. The caller then
    /// spawns the session's dispatcher, supervisor and poller; this entry
    /// point decides only the registration and returns at once.
    pub fn on_login_success(&mut self, s: Session) -> (prev: Option<Session>)
        requires
            old(self).wf(),
        ensures
            final(self).sessions() == old(self).sessions().insert((s.uin, s.protocol), s),
            final(self).wf(),
            prev matches Some(p) ==> old(self).sessions().contains_pair((s.uin, s.protocol), p),
            prev is None ==> !old(self).sessions().contains_key((s.uin, s.protocol)),
    {
        self.registry.register(s)
    }

    /// List one row per registered session, in no guaranteed order, keys
    /// never repeating.
    pub fn list_client(&self) -> (r: Vec<ClientInfo>)
        requires
            self.wf(),
        ensures
            forall|i: int|
                0 <= i < r@.len() ==> self.sessions().contains_key(
                    ((#[trigger] r@[i]).uin, r@[i].protocol),
                ) && r@[i] == info_of(self.sessions()[(r@[i].uin, r@[i].protocol)]),
            forall|k: AccountKey|
                self.sessions().contains_key(k) ==> exists|i: int|
                    0 <= i < r@.len() && ((#[trigger] r@[i]).uin, r@[i].protocol) == k,
            forall|i: int, j: int|
                0 <= i < j < r@.len() ==> (r@[i].uin, r@[i].protocol) != (r@[j].uin, r@[j].protocol),
    {
        self.registry.list_client()
    }

    /// Delete the session under the key. The removed record comes back so the
    /// caller can stop its transport and cancel its background tasks; an
    /// absent key is a no-op with nothing to stop, not an error.
    pub fn delete_client(&mut self, uin: i64, protocol: u8) -> (stopped: Option<Session>)
        requires
            old(self).wf(),
        ensures
            final(self).sessions() == old(self).sessions().remove((uin, protocol)),
            final(self).wf(),
            stopped matches Some(s) ==> old(self).sessions().contains_pair((uin, protocol), s),
            stopped is None ==> !old(self).sessions().contains_key((uin, protocol)),
    {
        self.registry.remove(uin, protocol)
    }

    /// A session's supervisor exhausted its attempts: surface the failure in
    /// the listing rather than dropping the entry. Reports whether the
    /// session was still registered.
    pub fn mark_permanently_failed(&mut self, uin: i64, protocol: u8) -> (found: bool)
        requires
            old(self).wf(),
        ensures
            final(self).wf(),
            found == old(self).sessions().contains_key((uin, protocol)),
            found ==> final(self).sessions() == old(self).sessions().insert(
                (uin, protocol),
                (Session {
                    uin: old(self).sessions()[(uin, protocol)].uin,
                    protocol: old(self).sessions()[(uin, protocol)].protocol,
                    nickname: old(self).sessions()[(uin, protocol)].nickname,
                    status: ConnStatus::PermanentlyFailed,
                }),
            ),
            !found ==> final(self).sessions() == old(self).sessions(),
    {
        self.registry.update_status(uin, protocol, ConnStatus::PermanentlyFailed)
    }
}

} // verus!
