use vstd::prelude::*;

verus! {

/// Connectivity of one session's transport, as surfaced to callers that list
/// the registered sessions.
#[derive(Clone, Copy, Debug, PartialEq, Eq, Structural)]
pub enum ConnStatus {
    Unknown,
    Online,
    Disconnected,
    Stopped,
    PermanentlyFailed,
}

/// Plain snapshot of one authenticated session: the account it belongs to,
/// the protocol variant it logged in with, and the metadata the transport
/// last reported. The transport handle itself stays with the caller; the
/// registry owns only this record.
#[derive(Clone, Debug)]
pub struct Session {
    pub uin: i64,
    pub protocol: u8,
    pub nickname: String,
    pub status: ConnStatus,
}

/// One row of the listing that the registry hands to its callers.
#[derive(Clone, Debug)]
pub struct ClientInfo {
    pub uin: i64,
    pub nick: String,
    pub status: ConnStatus,
    pub protocol: u8,
}

pub open spec fn info_of(s: Session) -> ClientInfo {
    (ClientInfo { uin: s.uin, nick: s.nickname, status: s.status, protocol: s.protocol })
}

impl Session {
    /// The listing row for this session.
    pub fn to_info(&self) -> (r: ClientInfo)
        ensures
            r == info_of(*self),
    {
        ClientInfo {
            uin: self.uin,
            nick: self.nickname.clone(),
            status: self.status,
            protocol: self.protocol,
        }
    }
}

} // verus!
