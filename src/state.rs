//! The session slot: the one live engine handle, the account it belongs to,
//! and the verification flow tracked for it.
use vstd::prelude::*;

use matrix_sdk::Client;
use std::path::PathBuf;

use crate::error::SessionError;
use crate::verification::{FlowView, VerificationTracker};

verus! {

#[verifier::external_type_specification]
#[verifier::external_body]
pub struct ExClient(Client);

#[verifier::external_type_specification]
#[verifier::external_body]
pub struct ExPathBuf(PathBuf);

pub struct SessionView {
    /// The installed engine handle, if any.
    pub client: Option<Client>,
    pub data_dir: PathBuf,
    pub user_id: Option<Seq<char>>,
    /// Name of the active session's directory under the data root.
    pub session_dir: Option<Seq<char>>,
    pub flow: Option<FlowView>,
}

/// What a torn-down session leaves to be cleaned up.
pub struct EndedSession {
    pub client: Client,
    pub user_id: String,
    pub session_dir: String,
}

/// The shared session state. The surrounding application keeps it behind a
/// read/write lock, so that a session is published only once login has
/// fully completed and is torn down in one step.
pub struct MatrixState {
    client: Option<Client>,
    user_id: Option<String>,
    session_dir: Option<String>,
    data_dir: PathBuf,
    pub verification: VerificationTracker,
}

impl View for MatrixState {
    type V = SessionView;

    closed spec fn view(&self) -> SessionView {
        SessionView {
            client: self.client,
            data_dir: self.data_dir,
            user_id: match self.user_id {
                Some(u) => Some(u@),
                None => None,
            },
            session_dir: match self.session_dir {
                Some(d) => Some(d@),
                None => None,
            },
            flow: self.verification@,
        }
    }
}

impl SessionView {
    pub open spec fn logged_in(self) -> bool {
        self.client is Some
    }
}

impl MatrixState {
    /// An engine handle is installed exactly when an account and its
    /// session directory are recorded.
    pub closed spec fn wf(&self) -> bool {
        &&& self.client is Some <==> self.user_id is Some
        &&& self.client is Some <==> self.session_dir is Some
    }

    /// No session, under the data root `data_dir`.
    pub fn new(data_dir: PathBuf) -> (r: Self)
        ensures
            r.wf(),
            !r@.logged_in(),
            r@.data_dir == data_dir,
            r@.user_id is None,
            r@.session_dir is None,
            r@.flow is None,
    {
        MatrixState {
            client: None,
            user_id: None,
            session_dir: None,
            data_dir,
            verification: VerificationTracker::new(),
        }
    }

    /// The directory under which each account's session directory lies.
    pub fn data_dir(&self) -> (r: &PathBuf)
        ensures
            *r == self@.data_dir,
    {
        &self.data_dir
    }

    /// The live engine handle; `NotLoggedIn` when there is none.
    pub fn client(&self) -> (r: Result<&Client, SessionError>)
        ensures
            r is Ok <==> self@.logged_in(),
            r matches Ok(c) ==> self@.client == Some(*c),
            r matches Err(e) ==> e == SessionError::NotLoggedIn,
    {
        match &self.client {
            Some(c) => Ok(c),
            None => Err(SessionError::NotLoggedIn),
        }
    }

    /// The account of the active session, if any.
    pub fn check_session(&self) -> (r: Option<String>)
        ensures
            match r {
                Some(u) => self@.user_id == Some(u@),
                None => self@.user_id is None,
            },
    {
        match &self.user_id {
            Some(u) => Some(u.clone()),
            None => None,
        }
    }

    /// Installs a fully logged-in and synchronised engine handle for
    /// `user_id`, kept under `session_dir`, as the single active session.
    /// Whatever was active before, and any verification flow tracked for it,
    /// is dropped.
    pub fn install_session(&mut self, client: Client, user_id: String, session_dir: String)
        ensures
            final(self).wf(),
            final(self)@.client == Some(client),
            final(self)@.data_dir == old(self)@.data_dir,
            final(self)@.user_id == Some(user_id@),
            final(self)@.session_dir == Some(session_dir@),
            final(self)@.flow is None,
    {
        self.client = Some(client);
        self.user_id = Some(user_id);
        self.session_dir = Some(session_dir);
        self.verification.clear();
    }

    /// Tears the session down: the engine handle, the account, the session
    /// directory and the tracked flow are all cleared in this one step,
    /// before anything is asked of the server. Hands back what there was, so
    /// that the server-side logout and the removal of the session directory
    /// can follow.
    pub fn end_session(&mut self) -> (r: Option<EndedSession>)
        requires
            old(self).wf(),
        ensures
            final(self).wf(),
            !final(self)@.logged_in(),
            final(self)@.data_dir == old(self)@.data_dir,
            final(self)@.user_id is None,
            final(self)@.session_dir is None,
            final(self)@.flow is None,
            r is Some <==> old(self)@.logged_in(),
            r matches Some(e) ==> old(self)@.client == Some(e.client) && old(self)@.user_id == Some(
                e.user_id@,
            ) && old(self)@.session_dir == Some(e.session_dir@),
    {
        let client = self.client.take();
        let user_id = self.user_id.take();
        let session_dir = self.session_dir.take();
        self.verification.clear();
        match (client, user_id, session_dir) {
            (Some(client), Some(user_id), Some(session_dir)) => Some(
                EndedSession { client, user_id, session_dir },
            ),
            _ => None,
        }
    }
}

} // verus!
