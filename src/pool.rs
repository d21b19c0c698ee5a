use crate::errors::Error;
use crate::messages::Version;
use crate::handshake::{action_for, advance, next_action, next_state, HandshakeAction, HandshakeEvent, HandshakeState};
use std::sync::Arc;
use tokio::sync::Mutex;
use vstd::pervasive::unreached;
use vstd::prelude::*;

verus! {

#[verifier::external_type_specification]
#[verifier::external_body]
#[verifier::reject_recursive_types(T)]
pub struct ExMutex<T: ?Sized>(tokio::sync::Mutex<T>);

/// Relies on tokio::sync::Mutex::new: puts the session behind an asynchronous
/// lock, which lets one holder at a time reach it.
#[verifier::external_body]
fn new_lock<C>(conn: C) -> (r: Mutex<C>) {
    Mutex::new(conn)
}

/// Relies on Arc::clone: a second pointer to the same allocation.
#[verifier::external_body]
fn share<T>(a: &Arc<T>) -> (r: Arc<T>)
    ensures
        r == *a,
{
    Arc::clone(a)
}

/// A query text together with the shared session that will run it.
#[verifier::reject_recursive_types(C)]
pub struct Query<C> {
    query: String,
    connection: Arc<Mutex<C>>,
}

impl<C> Query<C> {
    pub closed spec fn spec_text(&self) -> String {
        self.query
    }

    pub closed spec fn spec_connection(&self) -> Arc<Mutex<C>> {
        self.connection
    }

    pub fn new(query: String, connection: Arc<Mutex<C>>) -> (r: Query<C>)
        ensures
            r.spec_text() == query,
            r.spec_connection() == connection,
    {
        Query { query, connection }
    }

    /// The query text.
    pub fn text(&self) -> (r: &String)
        ensures
            *r == self.spec_text(),
    {
        &self.query
    }

    /// The locked session on which the query runs.
    pub fn connection(&self) -> (r: &Arc<Mutex<C>>)
        ensures
            *r == self.spec_connection(),
    {
        &self.connection
    }
}

/// A pooled session shared, under a lock, by the queries spawned from it.
#[verifier::reject_recursive_types(C)]
pub struct GraphConnection<C> {
    connection: Arc<Mutex<C>>,
}

impl<C> GraphConnection<C> {
    pub closed spec fn spec_connection(&self) -> Arc<Mutex<C>> {
        self.connection
    }

    /// A query on this session.
    pub fn query(&self, q: &str) -> (r: Query<C>)
        ensures
            r.spec_text()@ == q@,
            r.spec_connection() == self.spec_connection(),
    {
        Query::new(q.to_owned(), share(&self.connection))
    }
}

/// Produces sessions shared under a lock by concurrent queries.
pub struct GraphConnectionManager {
    uri: String,
    user: String,
    password: String,
}

impl GraphConnectionManager {
    pub closed spec fn spec_uri(&self) -> String {
        self.uri
    }

    pub closed spec fn spec_user(&self) -> String {
        self.user
    }

    pub closed spec fn spec_password(&self) -> String {
        self.password
    }

    pub fn new(uri: &str, user: &str, password: &str) -> (r: GraphConnectionManager)
        ensures
            r.spec_uri()@ == uri@,
            r.spec_user()@ == user@,
            r.spec_password()@ == password@,
    {
        GraphConnectionManager {
            uri: uri.to_owned(),
            user: user.to_owned(),
            password: password.to_owned(),
        }
    }

    /// Begins a handshake: the first state and the action it calls for.
    pub fn start(&self) -> (r: (HandshakeState, HandshakeAction))
        ensures
            r.0 == HandshakeState::Connecting,
            action_for(r.1, r.0, self.spec_uri(), self.spec_user(), self.spec_password()),
    {
        let state = HandshakeState::Connecting;
        let action = next_action(&state, &self.uri, &self.user, &self.password);
        (state, action)
    }

    /// Applies what the driver observed, and names its next action.
    pub fn step(&self, state: HandshakeState, event: HandshakeEvent) -> (r: (HandshakeState, HandshakeAction))
        ensures
            r.0 == next_state(state, event),
            action_for(r.1, r.0, self.spec_uri(), self.spec_user(), self.spec_password()),
    {
        let state = advance(state, event);
        let action = next_action(&state, &self.uri, &self.user, &self.password);
        (state, action)
    }

    /// Turns a final state into a pooled session, or into its error.
    pub fn finish<C>(&self, state: HandshakeState, conn: Option<C>) -> (r: Result<GraphConnection<C>, Error>)
        requires
            state.is_final(),
            state is Authenticated ==> conn is Some,
        ensures
            state is Authenticated <==> r is Ok,
            state matches HandshakeState::Failed { error } ==> r == Err::<GraphConnection<C>, Error>(error),
    {
        match state {
            HandshakeState::Failed { error } => Err(error),
            HandshakeState::Authenticated { .. } => match conn {
                Some(c) => Ok(GraphConnection { connection: Arc::new(new_lock(c)) }),
                None => unreached(),
            },
            _ => unreached(),
        }
    }

    /// Liveness is not probed: a session counts as valid until its use fails.
    pub fn is_valid<C>(&self, conn: &mut GraphConnection<C>) -> (r: Result<(), Error>)
        ensures
            r is Ok,
            *final(conn) == *old(conn),
    {
        Ok(())
    }

    /// Breakage is detected at the next use, never here.
    pub fn has_broken<C>(&self, conn: &mut GraphConnection<C>) -> (r: bool)
        ensures
            !r,
            *final(conn) == *old(conn),
    {
        false
    }
}

/// A pooled session held by one borrower at a time, with the version that was
/// negotiated when it opened. It forwards to the session itself.
pub struct ConnectionWrapper<C> {
    pub version: Version,
    inner: C,
}

impl<C> ConnectionWrapper<C> {
    pub closed spec fn spec_inner(&self) -> C {
        self.inner
    }

    pub closed spec fn spec_version(&self) -> Version {
        self.version
    }

    /// The session.
    pub fn get_ref(&self) -> (r: &C)
        ensures
            *r == self.spec_inner(),
    {
        &self.inner
    }

    /// The session, for an exchange on it.
    pub fn get_mut(&mut self) -> (r: &mut C)
        ensures
            *r == old(self).spec_inner(),
            final(self).spec_version() == old(self).spec_version(),
            final(self).spec_inner() == *final(r),
    {
        &mut self.inner
    }
}

impl<C> core::ops::Deref for ConnectionWrapper<C> {
    type Target = C;

    fn deref(&self) -> (r: &C)
        ensures
            *r == self.spec_inner(),
    {
        &self.inner
    }
}

impl<C> core::ops::DerefMut for ConnectionWrapper<C> {
    fn deref_mut(&mut self) -> (r: &mut C)
        ensures
            *r == old(self).spec_inner(),
            final(self).spec_version() == old(self).spec_version(),
            final(self).spec_inner() == *final(r),
    {
        &mut self.inner
    }
}

/// Produces sessions held by one borrower at a time.
pub struct ConnectionManager {
    uri: String,
    user: String,
    password: String,
}

impl ConnectionManager {
    pub closed spec fn spec_uri(&self) -> String {
        self.uri
    }

    pub closed spec fn spec_user(&self) -> String {
        self.user
    }

    pub closed spec fn spec_password(&self) -> String {
        self.password
    }

    pub fn new(uri: &str, user: &str, password: &str) -> (r: ConnectionManager)
        ensures
            r.spec_uri()@ == uri@,
            r.spec_user()@ == user@,
            r.spec_password()@ == password@,
    {
        ConnectionManager { uri: uri.to_owned(), user: user.to_owned(), password: password.to_owned() }
    }

    /// Begins a handshake: the first state and the action it calls for.
    pub fn start(&self) -> (r: (HandshakeState, HandshakeAction))
        ensures
            r.0 == HandshakeState::Connecting,
            action_for(r.1, r.0, self.spec_uri(), self.spec_user(), self.spec_password()),
    {
        let state = HandshakeState::Connecting;
        let action = next_action(&state, &self.uri, &self.user, &self.password);
        (state, action)
    }

    /// Applies what the driver observed, and names its next action.
    pub fn step(&self, state: HandshakeState, event: HandshakeEvent) -> (r: (HandshakeState, HandshakeAction))
        ensures
            r.0 == next_state(state, event),
            action_for(r.1, r.0, self.spec_uri(), self.spec_user(), self.spec_password()),
    {
        let state = advance(state, event);
        let action = next_action(&state, &self.uri, &self.user, &self.password);
        (state, action)
    }

    /// Turns a final state into a session with its negotiated version, or
    /// into its error.
    pub fn finish<C>(&self, state: HandshakeState, conn: Option<C>) -> (r: Result<ConnectionWrapper<C>, Error>)
        requires
            state.is_final(),
            state is Authenticated ==> conn is Some,
        ensures
            state matches HandshakeState::Authenticated { version } ==> r matches Ok(w) && w.spec_version() == version
                && w.spec_inner() == conn->Some_0,
            state matches HandshakeState::Failed { error } ==> r == Err::<ConnectionWrapper<C>, Error>(error),
    {
        match state {
            HandshakeState::Failed { error } => Err(error),
            HandshakeState::Authenticated { version } => match conn {
                Some(inner) => Ok(ConnectionWrapper { version, inner }),
                None => unreached(),
            },
            _ => unreached(),
        }
    }

    /// Liveness is not probed: a session counts as valid until its use fails.
    pub fn is_valid<C>(&self, conn: &mut ConnectionWrapper<C>) -> (r: Result<(), Error>)
        ensures
            r is Ok,
            *final(conn) == *old(conn),
    {
        Ok(())
    }

    /// Breakage is detected at the next use, never here.
    pub fn has_broken<C>(&self, conn: &mut ConnectionWrapper<C>) -> (r: bool)
        ensures
            !r,
            *final(conn) == *old(conn),
    {
        false
    }
}

} // verus!
