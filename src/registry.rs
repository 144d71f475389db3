//! The session registry: one record per live session, keyed by an id minted
//! here. The transports themselves are held by the caller under the same id.
use vstd::prelude::*;
use crate::codec::decode_base64;
use crate::error::TerminalError;
use crate::protocol::{
    copy_opt, is_redaction, opt_view, ConnectionType, CreateSessionRequest, SessionInfo, TermSize,
};
use crate::status::{transition_allowed, SessionStatus};
use crate::pump::{Notice, NoticeView};
use crate::text::{joined, owned, str_eq};

verus! {

/// Whether `c` is a lower-case hexadecimal digit.
pub open spec fn is_lower_hex(c: char) -> bool {
    ('0' <= c && c <= '9') || ('a' <= c && c <= 'f')
}

/// Whether `t` is a random (version 4) UUID in lower-case hyphenated form:
/// 8-4-4-4-12 hex digits, version digit `4`, variant digit one of `8 9 a b`.
pub open spec fn is_uuid_v4_text(t: Seq<char>) -> bool {
    &&& t.len() == 36
    &&& forall|i: int|
        0 <= i < 36 ==> if i == 8 || i == 13 || i == 18 || i == 23 {
            t[i] == '-'
        } else {
            is_lower_hex(t[i])
        }
    &&& t[14] == '4'
    &&& (t[19] == '8' || t[19] == '9' || t[19] == 'a' || t[19] == 'b')
}

/// Relies on uuid's `Uuid::new_v4` and its `Display`: 122 random bits with the
/// version and variant bits set, written in lower-case hyphenated form.
#[verifier::external_body]
fn random_uuid_text() -> (r: String)
    ensures
        is_uuid_v4_text(r@),
{
    uuid::Uuid::new_v4().to_string()
}

/// Whether no two records share an id.
pub open spec fn ids_distinct(s: Seq<SessionInfo>) -> bool {
    forall|i: int, j: int| 0 <= i < s.len() && 0 <= j < s.len() && i != j ==> s[i].id@ != s[j].id@
}

/// Whether no id occurs twice.
pub open spec fn seq_distinct(s: Seq<Seq<char>>) -> bool {
    forall|i: int, j: int| 0 <= i < s.len() && 0 <= j < s.len() && i != j ==> s[i] != s[j]
}

/// Whether some record has id `id`.
pub open spec fn has_id(s: Seq<SessionInfo>, id: Seq<char>) -> bool {
    exists|i: int| 0 <= i < s.len() && s[i].id@ == id
}

/// Whether `snap` reports `info` with secrets removed.
pub open spec fn is_snapshot(info: SessionInfo, snap: SessionInfo) -> bool {
    &&& snap.id@ == info.id@
    &&& is_redaction(info.connection_type, snap.connection_type)
    &&& snap.status == info.status
    &&& opt_view(snap.title) == opt_view(info.title)
    &&& opt_view(snap.cwd) == opt_view(info.cwd)
    &&& snap.exit_code == info.exit_code
    &&& snap.created_at == info.created_at
}

/// The status a new session starts in: a local shell runs at once, a remote
/// one is still connecting.
pub open spec fn initial_status(c: ConnectionType) -> SessionStatus {
    if c is Local {
        SessionStatus::Running
    } else {
        SessionStatus::Connecting
    }
}

/// The bytes a base64 input field stands for, or the error reporting it.
pub fn input_bytes(decoded: Option<Vec<u8>>) -> (r: Result<Vec<u8>, TerminalError>)
    ensures
        decoded matches Some(b) ==> (r matches Ok(x) && x@ == b@),
        decoded is None ==> (r matches Err(e) && e is InvalidRequest),
{
    match decoded {
        Some(b) => Ok(b),
        None => Err(TerminalError::InvalidRequest(owned("Invalid base64 data"))),
    }
}

/// Holds every live session; ids are pairwise distinct and never reissued.
pub struct PtyManager {
    sessions: Vec<SessionInfo>,
    issued: Vec<String>,
}

impl PtyManager {
    /// The live sessions, in creation order.
    pub closed spec fn sessions(&self) -> Seq<SessionInfo> {
        self.sessions@
    }

    /// Every id this registry has handed out.
    pub closed spec fn issued(&self) -> Seq<Seq<char>> {
        self.issued@.map_values(|s: String| s@)
    }

    /// Ids are distinct, every live id was issued here and issued once, and
    /// only a finished session carries an exit code.
    pub open spec fn wf(&self) -> bool {
        &&& ids_distinct(self.sessions())
        &&& seq_distinct(self.issued())
        &&& forall|i: int| 0 <= i < self.sessions().len() ==> self.issued().contains(#[trigger] self.sessions()[i].id@)
        &&& forall|i: int|
            0 <= i < self.sessions().len() ==> (#[trigger] self.sessions()[i]).exit_code is Some
                ==> self.sessions()[i].status == SessionStatus::Done
    }

    pub fn new() -> (r: PtyManager)
        ensures
            r.wf(),
            r.sessions().len() == 0,
            r.issued().len() == 0,
    {
        let r = PtyManager { sessions: Vec::new(), issued: Vec::new() };
        assert(r.issued() =~= Seq::<Seq<char>>::empty());
        r
    }

    /// Where the session `id` is kept.
    fn index_of(&self, id: &str) -> (r: Option<usize>)
        ensures
            r matches Some(i) ==> i < self.sessions().len() && self.sessions()[i as int].id@ == id@,
            r is None ==> !has_id(self.sessions(), id@),
    {
        let mut i: usize = 0;
        while i < self.sessions.len()
            invariant
                i <= self.sessions@.len(),
                forall|k: int| 0 <= k < i ==> self.sessions@[k].id@ != id@,
            decreases self.sessions.len() - i,
        {
            if str_eq(self.sessions[i].id.as_str(), id) {
                return Some(i);
            }
            i = i + 1;
        }
        None
    }

    /// Whether `id` was handed out before.
    fn was_issued(&self, id: &str) -> (r: bool)
        ensures
            r == self.issued().contains(id@),
    {
        let mut i: usize = 0;
        while i < self.issued.len()
            invariant
                i <= self.issued@.len(),
                forall|k: int| 0 <= k < i ==> self.issued@[k]@ != id@,
            decreases self.issued.len() - i,
        {
            if str_eq(self.issued[i].as_str(), id) {
                assert(self.issued()[i as int] == id@);
                return true;
            }
            i = i + 1;
        }
        proof {
            if self.issued().contains(id@) {
                let k = choose|k: int| 0 <= k < self.issued().len() && self.issued()[k] == id@;
                assert(self.issued@[k]@ == id@);
            }
        }
        false
    }

    /// Whether `after` is `before` with one record for `id` appended: the
    /// descriptor `connection`, the initial status for it, no title, directory
    /// or exit code, and `created_at`; and with `id` added to the issued ids.
    pub open spec fn appended(
        before: PtyManager,
        after: PtyManager,
        connection: ConnectionType,
        created_at: u64,
        id: Seq<char>,
    ) -> bool {
        &&& after.issued() == before.issued().push(id)
        &&& after.sessions().len() == before.sessions().len() + 1
        &&& after.sessions().drop_last() == before.sessions()
        &&& after.sessions().last().id@ == id
        &&& after.sessions().last().connection_type == connection
        &&& after.sessions().last().status == initial_status(connection)
        &&& after.sessions().last().title is None
        &&& after.sessions().last().cwd is None
        &&& after.sessions().last().exit_code is None
        &&& after.sessions().last().created_at == created_at
    }

    /// Records a new session under `id` and returns the id. `launch` is how
    /// starting a local shell went (remote sessions ignore it): a local session
    /// whose shell did not start is refused with pty-creation-failed. An id
    /// issued before is refused with invalid-request. A refused session changes
    /// nothing. A local session starts Running, a remote one Connecting.
    pub fn create_session_with_id(
        &mut self,
        request: CreateSessionRequest,
        created_at: u64,
        launch: Result<(), String>,
        id: String,
    ) -> (r: Result<String, TerminalError>)
        requires
            old(self).wf(),
        ensures
            final(self).wf(),
            request.connection is Local && launch is Err ==> (r matches Err(e) && e
                == TerminalError::PtyCreationFailed(launch->Err_0) && final(self).sessions() == old(self).sessions()
                && final(self).issued() == old(self).issued()),
            !(request.connection is Local && launch is Err) && old(self).issued().contains(id@) ==> (
            r matches Err(e) && e is InvalidRequest && final(self).sessions() == old(self).sessions()
                && final(self).issued() == old(self).issued()),
            !(request.connection is Local && launch is Err) && !old(self).issued().contains(id@) ==> (
            r matches Ok(x) && x@ == id@ && Self::appended(
                *old(self),
                *final(self),
                request.connection,
                created_at,
                id@,
            )),
    {
        let local = request.connection.is_local();
        if local {
            if let Err(m) = launch {
                return Err(TerminalError::PtyCreationFailed(m));
            }
        }
        if self.was_issued(id.as_str()) {
            return Err(TerminalError::InvalidRequest(joined("会话 ID 重复: ", id.as_str())));
        }
        let status = if local {
            SessionStatus::Running
        } else {
            SessionStatus::Connecting
        };
        let info = SessionInfo {
            id: id.clone(),
            connection_type: request.connection,
            status,
            title: None,
            cwd: None,
            exit_code: None,
            created_at,
        };
        let ghost old_sessions = self.sessions@;
        let ghost old_issued = self.issued();
        proof {
            assert forall|i: int| 0 <= i < old_sessions.len() implies old_sessions[i].id@ != id@ by {
                assert(old_issued.contains(old_sessions[i].id@));
            }
        }
        self.sessions.push(info);
        self.issued.push(id.clone());
        proof {
            assert(self.issued() =~= old_issued.push(id@));
            assert(self.sessions@.drop_last() =~= old_sessions);
            assert forall|i: int| 0 <= i < self.sessions().len() implies self.issued().contains(
                #[trigger] self.sessions()[i].id@,
            ) by {
                if i < old_sessions.len() {
                    assert(old_issued.contains(old_sessions[i].id@));
                    let k = choose|k: int| 0 <= k < old_issued.len() && old_issued[k] == old_sessions[i].id@;
                    assert(self.issued()[k] == old_sessions[i].id@);
                } else {
                    assert(self.issued()[old_issued.len() as int] == id@);
                }
            }
        }
        Ok(id)
    }

    /// Records a new session under a freshly drawn random id and returns the
    /// id, as `create_session_with_id` does. Success is owed whenever the local
    /// shell (if any) started and the drawn id cannot collide, in particular on
    /// a registry that has issued no id yet.
    pub fn create_session(
        &mut self,
        request: CreateSessionRequest,
        created_at: u64,
        launch: Result<(), String>,
    ) -> (r: Result<String, TerminalError>)
        requires
            old(self).wf(),
        ensures
            final(self).wf(),
            request.connection is Local && launch is Err ==> (r matches Err(e) && e
                == TerminalError::PtyCreationFailed(launch->Err_0) && final(self).sessions() == old(self).sessions()
                && final(self).issued() == old(self).issued()),
            r matches Ok(id) ==> is_uuid_v4_text(id@) && !old(self).issued().contains(id@)
                && Self::appended(*old(self), *final(self), request.connection, created_at, id@),
            !(request.connection is Local && launch is Err) ==> (r is Ok || (r matches Err(e)
                && e is InvalidRequest && final(self).sessions() == old(self).sessions()
                && final(self).issued() == old(self).issued())),
            !(request.connection is Local && launch is Err) && old(self).issued().len() == 0 ==> r is Ok,
    {
        let id = random_uuid_text();
        self.create_session_with_id(request, created_at, launch, id)
    }

    /// The bytes to write to session `session_id` for base64 `data`: the
    /// session must exist (else session-not-found) and `data` must be base64
    /// (else invalid-request).
    pub fn send_input(&self, session_id: &str, data: &str) -> (r: Result<Vec<u8>, TerminalError>)
        ensures
            !has_id(self.sessions(), session_id@) ==> is_not_found(r, session_id@),
            has_id(self.sessions(), session_id@) ==> input_result(r, data@),
    {
        if self.index_of(session_id).is_none() {
            return Err(TerminalError::SessionNotFound(owned(session_id)));
        }
        input_bytes(decode_base64(data))
    }

    /// Checks that session `session_id` exists before it is resized to `term_size`.
    pub fn resize_session(&self, session_id: &str, term_size: TermSize) -> (r: Result<
        TermSize,
        TerminalError,
    >)
        ensures
            !has_id(self.sessions(), session_id@) ==> is_not_found(r, session_id@),
            has_id(self.sessions(), session_id@) ==> r == Ok::<TermSize, TerminalError>(term_size),
    {
        match self.index_of(session_id) {
            Some(_) => Ok(term_size),
            None => Err(TerminalError::SessionNotFound(owned(session_id))),
        }
    }

    /// Removes session `session_id`, whatever its status; removing one that is
    /// not held is session-not-found.
    pub fn close_session(&mut self, session_id: &str) -> (r: Result<(), TerminalError>)
        requires
            old(self).wf(),
        ensures
            final(self).wf(),
            final(self).issued() == old(self).issued(),
            !has_id(old(self).sessions(), session_id@) ==> is_not_found(r, session_id@)
                && final(self).sessions() == old(self).sessions(),
            has_id(old(self).sessions(), session_id@) ==> r is Ok && !has_id(
                final(self).sessions(),
                session_id@,
            ) && exists|i: int|
                0 <= i < old(self).sessions().len() && old(self).sessions()[i].id@ == session_id@
                    && final(self).sessions() == old(self).sessions().remove(i),
    {
        match self.index_of(session_id) {
            None => Err(TerminalError::SessionNotFound(owned(session_id))),
            Some(i) => {
                let ghost before = self.sessions@;
                self.sessions.remove(i);
                proof {
                    assert(self.sessions@ == before.remove(i as int));
                    assert forall|k: int| 0 <= k < self.sessions@.len() implies self.sessions@[k].id@
                        != session_id@ by {
                        if k < i {
                            assert(self.sessions@[k] == before[k]);
                        } else {
                            assert(self.sessions@[k] == before[k + 1]);
                        }
                    }
                    assert forall|a: int, b: int|
                        0 <= a < self.sessions@.len() && 0 <= b < self.sessions@.len() && a != b
                            implies self.sessions@[a].id@ != self.sessions@[b].id@ by {
                        let a2 = if a < i { a } else { a + 1 };
                        let b2 = if b < i { b } else { b + 1 };
                        assert(self.sessions@[a] == before[a2]);
                        assert(self.sessions@[b] == before[b2]);
                    }
                    assert forall|k: int| 0 <= k < self.sessions().len() implies self.issued().contains(
                        #[trigger] self.sessions()[k].id@,
                    ) by {
                        let k2 = if k < i { k } else { k + 1 };
                        assert(self.sessions@[k] == before[k2]);
                    }
                    assert forall|k: int|
                        0 <= k < self.sessions().len() && (#[trigger] self.sessions()[k]).exit_code is Some
                            implies self.sessions()[k].status == SessionStatus::Done by {
                        let k2 = if k < i { k } else { k + 1 };
                        assert(self.sessions@[k] == before[k2]);
                    }
                }
                Ok(())
            },
        }
    }

    /// A copy of `info` with secrets removed.
    fn snapshot(info: &SessionInfo) -> (r: SessionInfo)
        ensures
            is_snapshot(*info, r),
    {
        SessionInfo {
            id: info.id.clone(),
            connection_type: info.connection_type.redacted(),
            status: info.status,
            title: copy_opt(&info.title),
            cwd: copy_opt(&info.cwd),
            exit_code: info.exit_code,
            created_at: info.created_at,
        }
    }

    /// A snapshot of every live session, in creation order, without secrets.
    pub fn list_sessions(&self) -> (r: Vec<SessionInfo>)
        ensures
            r@.len() == self.sessions().len(),
            forall|i: int| 0 <= i < r@.len() ==> is_snapshot(self.sessions()[i], #[trigger] r@[i]),
    {
        let mut out: Vec<SessionInfo> = Vec::new();
        let mut i: usize = 0;
        while i < self.sessions.len()
            invariant
                i <= self.sessions@.len(),
                out@.len() == i,
                forall|k: int| 0 <= k < i ==> is_snapshot(self.sessions@[k], #[trigger] out@[k]),
            decreases self.sessions.len() - i,
        {
            out.push(Self::snapshot(&self.sessions[i]));
            i = i + 1;
        }
        out
    }

    /// A snapshot of session `session_id`, without secrets, if it is held.
    pub fn get_session(&self, session_id: &str) -> (r: Option<SessionInfo>)
        ensures
            !has_id(self.sessions(), session_id@) ==> r is None,
            has_id(self.sessions(), session_id@) ==> (r matches Some(snap) && exists|i: int|
                0 <= i < self.sessions().len() && self.sessions()[i].id@ == session_id@ && is_snapshot(
                    self.sessions()[i],
                    snap,
                )),
    {
        match self.index_of(session_id) {
            Some(i) => Some(Self::snapshot(&self.sessions[i])),
            None => None,
        }
    }

    /// How many sessions are live.
    pub fn session_count(&self) -> (r: usize)
        ensures
            r == self.sessions().len(),
    {
        self.sessions.len()
    }

    /// Moves session `session_id` to `target` if the transition relation
    /// allows it; leaving Done drops the exit code. Returns whether it moved.
    pub fn update_status(&mut self, session_id: &str, target: SessionStatus) -> (r: bool)
        requires
            old(self).wf(),
        ensures
            final(self).wf(),
            final(self).issued() == old(self).issued(),
            others_unchanged(old(self).sessions(), final(self).sessions(), session_id@),
            r == may_move(old(self).sessions(), session_id@, target),
            !r ==> final(self).sessions() == old(self).sessions(),
            r ==> forall|k: int|
                0 <= k < old(self).sessions().len() && old(self).sessions()[k].id@ == session_id@
                    ==> #[trigger] final(self).sessions()[k] == (SessionInfo {
                    status: target,
                    exit_code: if target == SessionStatus::Done {
                        old(self).sessions()[k].exit_code
                    } else {
                        None
                    },
                    ..old(self).sessions()[k]
                }),
    {
        match self.index_of(session_id) {
            None => false,
            Some(i) => {
                if !crate::status::SessionStateManager::is_valid_transition(self.sessions[i].status, target) {
                    proof {
                        assert forall|k: int|
                            0 <= k < old(self).sessions().len() && old(self).sessions()[k].id@
                                == session_id@ implies !transition_allowed(
                            old(self).sessions()[k].status,
                            target,
                        ) by {
                            if k != i {
                                assert(self.sessions@[k].id@ != self.sessions@[i as int].id@);
                            }
                        }
                    }
                    return false;
                }
                let ghost before = self.sessions@;
                let mut rec = self.sessions.remove(i);
                rec.status = target;
                if target != SessionStatus::Done {
                    rec.exit_code = None;
                }
                self.sessions.insert(i, rec);
                proof {
                    assert(self.sessions@ =~= before.update(i as int, self.sessions@[i as int]));
                    assert(self.sessions@[i as int] == (SessionInfo {
                        status: target,
                        exit_code: if target == SessionStatus::Done { before[i as int].exit_code } else { None },
                        ..before[i as int]
                    }));
                    assert forall|k: int| 0 <= k < self.sessions().len() implies self.issued().contains(
                        #[trigger] self.sessions()[k].id@,
                    ) by {
                        assert(self.sessions@[k].id@ == before[k].id@);
                    }
                    assert forall|k: int|
                        0 <= k < before.len() && before[k].id@ == session_id@ implies k == i by {
                        if k != i {
                            assert(before[k].id@ != before[i as int].id@);
                        }
                    }
                }
                true
            },
        }
    }

    /// Records that session `session_id` finished with `code`: it enters Done
    /// with that exit code, if the transition relation allows entering Done.
    /// Returns whether it did.
    pub fn record_exit(&mut self, session_id: &str, code: i32) -> (r: bool)
        requires
            old(self).wf(),
        ensures
            final(self).wf(),
            final(self).issued() == old(self).issued(),
            others_unchanged(old(self).sessions(), final(self).sessions(), session_id@),
            r == may_move(old(self).sessions(), session_id@, SessionStatus::Done),
            !r ==> final(self).sessions() == old(self).sessions(),
            r ==> forall|k: int|
                0 <= k < old(self).sessions().len() && old(self).sessions()[k].id@ == session_id@
                    ==> #[trigger] final(self).sessions()[k] == (SessionInfo {
                    status: SessionStatus::Done,
                    exit_code: Some(code),
                    ..old(self).sessions()[k]
                }),
    {
        match self.index_of(session_id) {
            None => false,
            Some(i) => {
                if !crate::status::SessionStateManager::is_valid_transition(
                    self.sessions[i].status,
                    SessionStatus::Done,
                ) {
                    proof {
                        assert forall|k: int|
                            0 <= k < old(self).sessions().len() && old(self).sessions()[k].id@
                                == session_id@ implies !transition_allowed(
                            old(self).sessions()[k].status,
                            SessionStatus::Done,
                        ) by {
                            if k != i {
                                assert(self.sessions@[k].id@ != self.sessions@[i as int].id@);
                            }
                        }
                    }
                    return false;
                }
                let ghost before = self.sessions@;
                let mut rec = self.sessions.remove(i);
                rec.status = SessionStatus::Done;
                rec.exit_code = Some(code);
                self.sessions.insert(i, rec);
                proof {
                    assert(self.sessions@ =~= before.update(i as int, self.sessions@[i as int]));
                    assert forall|k: int| 0 <= k < self.sessions().len() implies self.issued().contains(
                        #[trigger] self.sessions()[k].id@,
                    ) by {
                        assert(self.sessions@[k].id@ == before[k].id@);
                    }
                    assert forall|k: int|
                        0 <= k < before.len() && before[k].id@ == session_id@ implies k == i by {
                        if k != i {
                            assert(before[k].id@ != before[i as int].id@);
                        }
                    }
                }
                true
            },
        }
    }

    /// Applies to the records what a pump notification says about its session.
    pub fn apply_notice(&mut self, notice: &Notice) -> (r: bool)
        requires
            old(self).wf(),
        ensures
            final(self).wf(),
            final(self).issued() == old(self).issued(),
            notice_applied(old(self).sessions(), final(self).sessions(), notice@, r),
    {
        match notice {
            Notice::Status(n) => {
                if n.status == SessionStatus::Done {
                    if let Some(code) = n.exit_code {
                        return self.record_exit(n.session_id.as_str(), code);
                    }
                }
                self.update_status(n.session_id.as_str(), n.status)
            },
            Notice::Cwd(n) => {
                let r = self.record_cwd(n.session_id.as_str(), n.cwd.clone());
                proof {
                    if r {
                        assert forall|k: int|
                            0 <= k < old(self).sessions().len() && old(self).sessions()[k].id@
                                == n.session_id@ implies opt_view(
                            #[trigger] self.sessions()[k].cwd,
                        ) == Some(n.cwd@) && self.sessions()[k] == (SessionInfo {
                            cwd: self.sessions()[k].cwd,
                            ..old(self).sessions()[k]
                        }) by {}
                    }
                }
                r
            },
            _ => false,
        }
    }

    /// Records the working directory session `session_id` reported. Returns
    /// whether the session is held.
    pub fn record_cwd(&mut self, session_id: &str, cwd: String) -> (r: bool)
        requires
            old(self).wf(),
        ensures
            final(self).wf(),
            final(self).issued() == old(self).issued(),
            others_unchanged(old(self).sessions(), final(self).sessions(), session_id@),
            r == has_id(old(self).sessions(), session_id@),
            !r ==> final(self).sessions() == old(self).sessions(),
            r ==> forall|k: int|
                0 <= k < old(self).sessions().len() && old(self).sessions()[k].id@ == session_id@
                    ==> #[trigger] final(self).sessions()[k] == (SessionInfo {
                    cwd: Some(cwd),
                    ..old(self).sessions()[k]
                }),
    {
        match self.index_of(session_id) {
            None => false,
            Some(i) => {
                let ghost before = self.sessions@;
                let mut rec = self.sessions.remove(i);
                rec.cwd = Some(cwd);
                self.sessions.insert(i, rec);
                proof {
                    assert(self.sessions@ =~= before.update(i as int, self.sessions@[i as int]));
                    assert forall|k: int| 0 <= k < self.sessions().len() implies self.issued().contains(
                        #[trigger] self.sessions()[k].id@,
                    ) by {
                        assert(self.sessions@[k].id@ == before[k].id@);
                    }
                    assert forall|k: int|
                        0 <= k < before.len() && before[k].id@ == session_id@ implies k == i by {
                        if k != i {
                            assert(before[k].id@ != before[i as int].id@);
                        }
                    }
                }
                true
            },
        }
    }
}

/// In a well-formed registry no two live sessions share an id and no id was
/// ever handed out twice, so ids are never reused while the registry lives.
pub proof fn lemma_session_ids_unique(m: PtyManager, i: int, j: int)
    requires
        m.wf(),
    ensures
        0 <= i < m.sessions().len() && 0 <= j < m.sessions().len() && i != j ==> m.sessions()[i].id@
            != m.sessions()[j].id@,
        0 <= i < m.issued().len() && 0 <= j < m.issued().len() && i != j ==> m.issued()[i]
            != m.issued()[j],
{
}

/// Whether every record of `after` not named `id` is the record of `before`
/// at the same place, and the two have the same length.
pub open spec fn others_unchanged(before: Seq<SessionInfo>, after: Seq<SessionInfo>, id: Seq<char>) -> bool {
    &&& after.len() == before.len()
    &&& forall|k: int| 0 <= k < before.len() && before[k].id@ != id ==> #[trigger] after[k] == before[k]
}

/// Whether some record is named `id` and may move from its status to `target`.
pub open spec fn may_move(s: Seq<SessionInfo>, id: Seq<char>, target: SessionStatus) -> bool {
    exists|i: int| 0 <= i < s.len() && s[i].id@ == id && transition_allowed(s[i].status, target)
}

/// How a pump notification changes the records: done with an exit code
/// records the exit, any other status is a status change under the transition
/// relation, a working directory is recorded, and output, titles and clipboard
/// requests change nothing. `r` tells whether a record changed.
pub open spec fn notice_applied(before: Seq<SessionInfo>, after: Seq<SessionInfo>, n: NoticeView, r: bool) -> bool {
    match n {
        NoticeView::Status(sid, status, code) => {
            &&& others_unchanged(before, after, sid)
            &&& r == may_move(before, sid, status)
            &&& !r ==> after == before
            &&& r ==> forall|k: int|
                0 <= k < before.len() && before[k].id@ == sid ==> #[trigger] after[k] == (SessionInfo {
                    status,
                    exit_code: if status == SessionStatus::Done && code is Some {
                        code
                    } else if status == SessionStatus::Done {
                        before[k].exit_code
                    } else {
                        None
                    },
                    ..before[k]
                })
        },
        NoticeView::Cwd(sid, dir) => {
            &&& others_unchanged(before, after, sid)
            &&& r == has_id(before, sid)
            &&& !r ==> after == before
            &&& r ==> forall|k: int|
                0 <= k < before.len() && before[k].id@ == sid ==> opt_view(#[trigger] after[k].cwd)
                    == Some(dir) && after[k] == (SessionInfo { cwd: after[k].cwd, ..before[k] })
        },
        _ => !r && after == before,
    }
}

/// Whether `r` reports that no session `id` is held.
pub open spec fn is_not_found<T>(r: Result<T, TerminalError>, id: Seq<char>) -> bool {
    match r {
        Err(TerminalError::SessionNotFound(m)) => m@ == id,
        _ => false,
    }
}

/// What `send_input` gives for base64 `data` once the session is known.
pub open spec fn input_result(r: Result<Vec<u8>, TerminalError>, data: Seq<char>) -> bool {
    match crate::codec::base64_decoded(data) {
        Some(b) => (r matches Ok(x) && x@ == b),
        None => (r matches Err(e) && e is InvalidRequest),
    }
}

} // verus!
