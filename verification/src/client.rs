//! The remote-session client: it owns the opaque server handle for its
//! lifetime, keeps the snapshot of session records of the most recent
//! successful refresh, and hands the handle out for release exactly once.
//!
//! The operating-system collaborators run outside this crate. Each operation
//! here takes the raw outcome of the corresponding calls as plain values:
//! the open outcome as a handle or a failure code, the enumeration outcome
//! as a list of session id and state code pairs or a failure code, and one
//! client-info query outcome per enumerated session.

use vstd::prelude::*;

use crate::error::SessionError;
use crate::error::TextField;
use crate::state::state_of;
use crate::state::RemoteDesktopSessionState;
use crate::text::decode_wide;
use crate::text::decoded_wide;

verus! {

/// The undecoded client metadata of one session, as the query collaborator
/// returns it: two zero-terminated wide text buffers and the network
/// address, an address-family tag with a raw word buffer.
#[derive(Debug, Clone)]
pub struct RawClientInfo {
    /// The connected user's name, as a zero-terminated wide buffer.
    pub user_name: Vec<u16>,
    /// The connected client machine's name, as a zero-terminated wide buffer.
    pub client_name: Vec<u16>,
    /// The address-family tag of the client's network address.
    pub address_family: u32,
    /// The raw words of the client's network address.
    pub address: Vec<u16>,
}

/// The decoded client metadata of one session.
#[derive(Debug)]
pub struct ClientInfo {
    /// Connected user's name.
    pub user: String,
    /// Connected client machine's NetBIOS name.
    pub client: String,
    /// Address of the connected client: the address-family tag and the raw
    /// address words.
    pub address: (u32, Vec<u16>),
}

/// One session record of a refresh snapshot: the session id, its state, and
/// the decoded client metadata.
#[derive(Debug)]
pub struct RemoteDesktopSessionInfo {
    /// The session id, unique within one snapshot.
    pub session_id: u32,
    /// The session's reported connection state.
    pub state: RemoteDesktopSessionState,
    /// The decoded client metadata of the session.
    pub client_info: ClientInfo,
}

/// The first failure that resolving one enumerated session runs into, in the
/// order the work is done: the state code is classified first, then the
/// client-info query outcome is read, then its user name and client name are
/// decoded, in that order.
pub open spec fn entry_error(pair: (u32, i32), info: Result<RawClientInfo, u32>) -> Option<
    SessionError,
> {
    if !(0 <= pair.1 <= 9) {
        Some(SessionError::InvalidStateCode(pair.1))
    } else {
        match info {
            Result::Err(code) => Some(SessionError::ClientInfoQueryFailed(pair.0, code)),
            Result::Ok(raw) => if decoded_wide(raw.user_name@) is None {
                Some(SessionError::TextDecodeFailed(TextField::UserName, pair.0))
            } else if decoded_wide(raw.client_name@) is None {
                Some(SessionError::TextDecodeFailed(TextField::ClientName, pair.0))
            } else {
                None
            },
        }
    }
}

/// The first failure of a whole refresh over the enumerated sessions in
/// order, or `None` when every session resolves.
pub open spec fn refresh_error(
    pairs: Seq<(u32, i32)>,
    infos: Seq<Result<RawClientInfo, u32>>,
) -> Option<SessionError>
    recommends
        pairs.len() == infos.len(),
    decreases pairs.len(),
{
    if pairs.len() == 0 {
        None
    } else {
        match entry_error(pairs[0], infos[0]) {
            Some(e) => Some(e),
            None => refresh_error(pairs.skip(1), infos.skip(1)),
        }
    }
}

/// True when the record is the resolution of the given enumerated session:
/// same id, the classified state, and the decoded client metadata.
pub open spec fn record_matches(
    rec: RemoteDesktopSessionInfo,
    pair: (u32, i32),
    info: Result<RawClientInfo, u32>,
) -> bool {
    &&& rec.session_id == pair.0
    &&& rec.state == state_of(pair.1 as int)
    &&& (match info {
        Result::Ok(raw) => {
            &&& rec.client_info.user@ == decoded_wide(raw.user_name@).unwrap()
            &&& rec.client_info.client@ == decoded_wide(raw.client_name@).unwrap()
            &&& rec.client_info.address.0 == raw.address_family
            &&& rec.client_info.address.1@ == raw.address@
        },
        Result::Err(_) => false,
    })
}

/// A refresh reports no failure when every enumerated session resolves:
/// its state code in range, its query outcome a success, and both of its
/// text fields decodable.
pub proof fn lemma_refresh_success(pairs: Seq<(u32, i32)>, infos: Seq<Result<RawClientInfo, u32>>)
    requires
        pairs.len() == infos.len(),
        forall|j: int| 0 <= j < pairs.len() ==> entry_error(pairs[j], infos[j]) is None,
    ensures
        refresh_error(pairs, infos) is None,
    decreases pairs.len(),
{
    if pairs.len() != 0 {
        assert(forall|j: int|
            0 <= j < pairs.skip(1).len() ==> entry_error(pairs.skip(1)[j], infos.skip(1)[j])
                is None);
        lemma_refresh_success(pairs.skip(1), infos.skip(1));
    }
}

/// Conversely, a refresh that reports no failure resolved every enumerated
/// session.
pub proof fn lemma_refresh_success_each(
    pairs: Seq<(u32, i32)>,
    infos: Seq<Result<RawClientInfo, u32>>,
)
    requires
        pairs.len() == infos.len(),
        refresh_error(pairs, infos) is None,
    ensures
        forall|j: int| 0 <= j < pairs.len() ==> entry_error(pairs[j], infos[j]) is None,
    decreases pairs.len(),
{
    if pairs.len() != 0 {
        lemma_refresh_success_each(pairs.skip(1), infos.skip(1));
        assert(forall|j: int|
            1 <= j < pairs.len() ==> entry_error(pairs[j], infos[j]) == entry_error(
                pairs.skip(1)[j - 1],
                infos.skip(1)[j - 1],
            ));
    }
}

/// A record of a resolved session carries non-empty user and client text
/// whenever the raw buffers do not begin with the terminator.
pub proof fn lemma_record_text_nonempty(
    rec: RemoteDesktopSessionInfo,
    pair: (u32, i32),
    info: Result<RawClientInfo, u32>,
)
    requires
        record_matches(rec, pair, info),
        entry_error(pair, info) is None,
        info is Ok,
        info.unwrap().user_name@.len() > 0,
        info.unwrap().user_name@[0] != 0,
        info.unwrap().client_name@.len() > 0,
        info.unwrap().client_name@[0] != 0,
    ensures
        rec.client_info.user@.len() > 0,
        rec.client_info.client@.len() > 0,
{
    crate::text::lemma_decoded_nonempty(info.unwrap().user_name@);
    crate::text::lemma_decoded_nonempty(info.unwrap().client_name@);
}

/// A snapshot reader over the records of a client, positioned at the first
/// record. It borrows the list, so it is finite and restartable: taking a
/// fresh reader rewinds to the first record.
pub struct SessionInfoIter<'a> {
    internal: &'a Vec<RemoteDesktopSessionInfo>,
    pos: usize,
}

impl<'a> SessionInfoIter<'a> {
    /// The records the reader walks.
    pub closed spec fn records(self) -> Seq<RemoteDesktopSessionInfo> {
        self.internal@
    }

    /// How many records have been handed out so far.
    pub closed spec fn position(self) -> int {
        self.pos as int
    }

    /// The number of records in the snapshot.
    pub fn len(&self) -> (r: usize)
        ensures
            r == self.records().len(),
    {
        self.internal.len()
    }

    /// The record at the given index.
    pub fn get(&self, i: usize) -> (r: &'a RemoteDesktopSessionInfo)
        requires
            i < self.records().len(),
        ensures
            *r == self.records()[i as int],
    {
        let v = self.internal;
        &v[i]
    }

    /// The next record, or `None` once every record has been handed out.
    pub fn next(&mut self) -> (r: Option<&'a RemoteDesktopSessionInfo>)
        ensures
            final(self).records() == old(self).records(),
            old(self).position() < old(self).records().len() ==> {
                &&& r is Some
                &&& *r.unwrap() == old(self).records()[old(self).position()]
                &&& final(self).position() == old(self).position() + 1
            },
            old(self).position() >= old(self).records().len() ==> {
                &&& r is None
                &&& final(self).position() == old(self).position()
            },
    {
        let v = self.internal;
        if self.pos < v.len() {
            let r = &v[self.pos];
            self.pos = self.pos + 1;
            Some(r)
        } else {
            None
        }
    }
}

/// Copy a word buffer.
fn copy_words(v: &Vec<u16>) -> (r: Vec<u16>)
    ensures
        r@ == v@,
{
    let mut r: Vec<u16> = Vec::new();
    let mut i: usize = 0;
    while i < v.len()
        invariant
            i <= v@.len(),
            r@ == v@.take(i as int),
        decreases v@.len() - i,
    {
        let w = v[i];
        r.push(w);
        proof {
            assert(r@ =~= v@.take(i as int + 1));
        }
        i = i + 1;
    }
    proof {
        assert(v@.take(v@.len() as int) =~= v@);
    }
    r
}

/// A client bound to one session server. It owns the opaque server handle
/// from construction until teardown and keeps the snapshot of the most
/// recent successful refresh; a failed refresh leaves the snapshot as it
/// was.
pub struct RemoteServer {
    server_handle: usize,
    released: bool,
    sessions_list: Vec<RemoteDesktopSessionInfo>,
}

impl RemoteServer {
    /// The opaque handle received from the open collaborator.
    pub closed spec fn handle_id(self) -> usize {
        self.server_handle
    }

    /// Whether the handle has already been handed out for release.
    pub closed spec fn is_released(self) -> bool {
        self.released
    }

    /// The records of the most recent successful refresh.
    pub closed spec fn records(self) -> Seq<RemoteDesktopSessionInfo> {
        self.sessions_list@
    }

    /// Create the client from the outcome of the open-server collaborator:
    /// a client with the handle and an empty session list on success, the
    /// collaborator's failure code otherwise.
    pub fn new(open_outcome: Result<usize, u32>) -> (r: Result<RemoteServer, SessionError>)
        ensures
            match open_outcome {
                Result::Ok(handle) => {
                    &&& r is Ok
                    &&& r.unwrap().handle_id() == handle
                    &&& !r.unwrap().is_released()
                    &&& r.unwrap().records() == Seq::<RemoteDesktopSessionInfo>::empty()
                },
                Result::Err(code) => r == Err::<RemoteServer, SessionError>(
                    SessionError::ServerOpenFailed(code),
                ),
            },
    {
        match open_outcome {
            Ok(handle) => {
                let list: Vec<RemoteDesktopSessionInfo> = Vec::new();
                proof {
                    assert(list@ =~= Seq::<RemoteDesktopSessionInfo>::empty());
                }
                Ok(RemoteServer { server_handle: handle, released: false, sessions_list: list })
            },
            Err(code) => Err(SessionError::ServerOpenFailed(code)),
        }
    }

    /// Replace the snapshot from the outcomes of one refresh round: the
    /// enumeration outcome and, in enumeration order, one client-info query
    /// outcome per enumerated session. Resolving the sessions is
    /// all-or-nothing: on the first failure the refresh reports it and the
    /// previous snapshot stays untouched; on success the new records replace
    /// the snapshot, one per enumerated session, in order.
    #[verifier::loop_isolation(false)]
    pub fn update_info(
        &mut self,
        enumeration: Result<Vec<(u32, i32)>, u32>,
        client_infos: Vec<Result<RawClientInfo, u32>>,
    ) -> (r: Result<(), SessionError>)
        requires
            !old(self).is_released(),
            enumeration is Ok ==> client_infos@.len() == enumeration.unwrap()@.len(),
        ensures
            final(self).handle_id() == old(self).handle_id(),
            final(self).is_released() == old(self).is_released(),
            match enumeration {
                Result::Err(code) => {
                    &&& r == Err::<(), SessionError>(SessionError::SessionEnumerationFailed(code))
                    &&& final(self).records() == old(self).records()
                },
                Result::Ok(pairs) => match refresh_error(pairs@, client_infos@) {
                    Some(e) => {
                        &&& r == Err::<(), SessionError>(e)
                        &&& final(self).records() == old(self).records()
                    },
                    None => {
                        &&& r is Ok
                        &&& final(self).records().len() == pairs@.len()
                        &&& (forall|j: int|
                            0 <= j < pairs@.len() ==> record_matches(
                                final(self).records()[j],
                                pairs@[j],
                                client_infos@[j],
                            ))
                    },
                },
            },
    {
        let pairs = match enumeration {
            Err(code) => {
                return Err(SessionError::SessionEnumerationFailed(code));
            },
            Ok(pairs) => pairs,
        };
        let mut new_list: Vec<RemoteDesktopSessionInfo> = Vec::new();
        let mut i: usize = 0;
        proof {
            assert(pairs@.skip(0) =~= pairs@);
            assert(client_infos@.skip(0) =~= client_infos@);
        }
        while i < pairs.len()
            invariant
                i <= pairs@.len(),
                client_infos@.len() == pairs@.len(),
                refresh_error(pairs@, client_infos@) == refresh_error(
                    pairs@.skip(i as int),
                    client_infos@.skip(i as int),
                ),
                new_list@.len() == i,
                forall|j: int|
                    0 <= j < i ==> record_matches(new_list@[j], pairs@[j], client_infos@[j]),
            decreases pairs@.len() - i,
        {
            proof {
                let tp = pairs@.skip(i as int);
                let ti = client_infos@.skip(i as int);
                assert(tp[0] == pairs@[i as int]);
                assert(ti[0] == client_infos@[i as int]);
                assert(tp.skip(1) =~= pairs@.skip(i as int + 1));
                assert(ti.skip(1) =~= client_infos@.skip(i as int + 1));
                assert(refresh_error(tp, ti) == (match entry_error(tp[0], ti[0]) {
                    Some(e) => Some(e),
                    None => refresh_error(tp.skip(1), ti.skip(1)),
                }));
            }
            let (sid, code) = pairs[i];
            if code < 0 || code > 9 {
                return Err(SessionError::InvalidStateCode(code));
            }
            let state = RemoteDesktopSessionState::get_variant(code);
            let info = &client_infos[i];
            match info {
                Err(query_code) => {
                    return Err(SessionError::ClientInfoQueryFailed(sid, *query_code));
                },
                Ok(raw) => {
                    let user = match decode_wide(&raw.user_name) {
                        None => {
                            return Err(SessionError::TextDecodeFailed(TextField::UserName, sid));
                        },
                        Some(s) => s,
                    };
                    let client = match decode_wide(&raw.client_name) {
                        None => {
                            return Err(SessionError::TextDecodeFailed(TextField::ClientName, sid));
                        },
                        Some(s) => s,
                    };
                    let address = copy_words(&raw.address);
                    new_list.push(
                        RemoteDesktopSessionInfo {
                            session_id: sid,
                            state,
                            client_info: ClientInfo {
                                user,
                                client,
                                address: (raw.address_family, address),
                            },
                        },
                    );
                },
            }
            i = i + 1;
        }
        proof {
            assert(pairs@.skip(pairs@.len() as int).len() == 0);
        }
        self.sessions_list = new_list;
        Ok(())
    }

    /// A snapshot reader over the current records, positioned at the first.
    pub fn iter(&self) -> (r: SessionInfoIter<'_>)
        ensures
            r.records() == self.records(),
            r.position() == 0,
    {
        SessionInfoIter { internal: &self.sessions_list, pos: 0 }
    }

    /// The opaque handle, for the caller to hand to the enumeration and
    /// query collaborators while the client is open.
    pub fn handle(&self) -> (r: usize)
        ensures
            r == self.handle_id(),
    {
        self.server_handle
    }

    /// Whether the handle has been handed out for release, after which no
    /// refresh may run.
    pub fn is_torn_down(&self) -> (r: bool)
        ensures
            r == self.is_released(),
    {
        self.released
    }

    /// Give the handle out for release. The first call returns the handle,
    /// for the caller to hand back to the close collaborator; every later
    /// call returns `None`, so the handle cannot be released twice.
    pub fn teardown(&mut self) -> (r: Option<usize>)
        ensures
            final(self).is_released(),
            final(self).handle_id() == old(self).handle_id(),
            final(self).records() == old(self).records(),
            !old(self).is_released() ==> r == Some(old(self).handle_id()),
            old(self).is_released() ==> r is None,
    {
        if self.released {
            None
        } else {
            self.released = true;
            Some(self.server_handle)
        }
    }
}

} // verus!
