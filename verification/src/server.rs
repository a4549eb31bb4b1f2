//! The listening side: binding a socket, accepting peers, and the serve
//! loop.
use vstd::prelude::*;
use vstd::string::*;

use crate::connection::Connection;
use crate::driver::{Request, RequestView};
use crate::error::IpcError;
use crate::path::{full_path_spec, get_full_path};

pub mod async_wrapper;

verus! {

/// The requests that bind the listener named `socket_name`, in the order in
/// which the driver carries them out: delete what is left at its path of an
/// earlier run, then bind there. Only the answer to the second is asked
/// for; deleting may fail for any reason.
pub fn bind_requests(socket_name: &str) -> (requests: Vec<Request>)
    ensures
        requests@.len() == 2,
        requests@[0]@ == RequestView::RemoveFile(full_path_spec(socket_name@)),
        requests@[1]@ == RequestView::Bind(full_path_spec(socket_name@)),
{
    let mut requests: Vec<Request> = Vec::new();
    requests.push(Request::RemoveFile(get_full_path(socket_name)));
    requests.push(Request::Bind(get_full_path(socket_name)));
    requests
}

/// What accepting returns for the driver's answer `accepted`: the handle of
/// the new connection.
pub open spec fn accepted_spec<S, E>(accepted: Result<S, E>) -> Result<S, IpcError<E>> {
    match accepted {
        Ok(stream) => Ok(stream),
        Err(cause) => Err(IpcError::Accept(cause)),
    }
}

/// A listener: the handle of one bound socket, the name it was given and
/// the path it is bound to. It is not cloned.
#[derive(Debug)]
pub struct Server<L> {
    pub raw_path: String,
    pub socket_name: String,
    pub listener: L,
}

impl<L> Server<L> {
    /// Ends the bind of [`bind_requests`]: a listener for the socket that
    /// the driver bound, or `Bind` with the driver's cause.
    pub fn new<E>(socket_name: &str, bound: Result<L, E>) -> (result: Result<Self, IpcError<E>>)
        ensures
            match bound {
                Ok(listener) => result matches Ok(server) && server.socket_name@ == socket_name@
                    && server.raw_path@ == full_path_spec(socket_name@) && server.listener
                    == listener,
                Err(cause) => result matches Err(error) && error == IpcError::Bind(cause),
            },
    {
        match bound {
            Ok(listener) => Ok(
                Server {
                    raw_path: get_full_path(socket_name),
                    socket_name: String::from_str(socket_name),
                    listener,
                },
            ),
            Err(cause) => Err(IpcError::Bind(cause)),
        }
    }

    /// Ends an accept: the connection to the peer, or `Accept` with the
    /// driver's cause. The listener is as it was either way and can accept
    /// again.
    pub fn wait_connection<S, E>(&self, accepted: Result<S, E>) -> (result: Result<
        Connection<S>,
        IpcError<E>,
    >)
        ensures
            result == match accepted_spec(accepted) {
                Ok(stream) => Ok::<Connection<S>, IpcError<E>>(Connection { stream }),
                Err(error) => Err::<Connection<S>, IpcError<E>>(error),
            },
    {
        match accepted {
            Ok(stream) => Ok(Connection::new(stream)),
            Err(cause) => Err(IpcError::Accept(cause)),
        }
    }
}

/// An accepted connection as the serve loop hands it to its handler.
#[derive(Debug, PartialEq, Eq)]
pub struct StreamData<S> {
    pub stream: S,
}

/// What the driver reports to the serve loop.
#[derive(Debug, PartialEq, Eq)]
pub enum ServeEvent<S, E> {
    /// How the last accept ended.
    Accepted(Result<S, E>),
    /// What the handler returned for the last connection.
    Handled(Result<(), IpcError<E>>),
}

/// What the serve loop has the driver do next.
#[derive(Debug, PartialEq, Eq)]
pub enum ServeAction<S, E> {
    /// Wait for the next peer.
    Accept,
    /// Call the handler on this connection, then drop the connection.
    Handle(StreamData<S>),
    /// Leave the loop with this error.
    Stop(IpcError<E>),
}

/// The step of the serve loop. `None` is the start of the loop. Nothing is
/// kept from one connection to the next: after a handler that returned
/// without an error the loop accepts again, whatever came before.
pub open spec fn listen_spec<S, E>(event: Option<ServeEvent<S, E>>) -> ServeAction<S, E> {
    match event {
        None => ServeAction::Accept,
        Some(ServeEvent::Accepted(Ok(stream))) => ServeAction::Handle(StreamData { stream }),
        Some(ServeEvent::Accepted(Err(cause))) => ServeAction::Stop(IpcError::Accept(cause)),
        Some(ServeEvent::Handled(Ok(()))) => ServeAction::Accept,
        Some(ServeEvent::Handled(Err(error))) => ServeAction::Stop(error),
    }
}

/// The serve loop ends on errors only: when an accept fails, with `Accept`
/// and the driver's cause, or when a handler returns an error, with that
/// error. A handler that returned without one is followed by the next
/// accept, and an accepted connection by its handler.
pub proof fn law_serve_loop<S, E>(event: Option<ServeEvent<S, E>>)
    ensures
        listen_spec(event) is Stop <==> (event matches Some(ServeEvent::Accepted(Err(_))))
            || (event matches Some(ServeEvent::Handled(Err(_)))),
        event matches Some(ServeEvent::Accepted(Err(cause))) ==> listen_spec(event)
            == ServeAction::<S, E>::Stop(IpcError::Accept(cause)),
        event matches Some(ServeEvent::Handled(Err(error))) ==> listen_spec(event)
            == ServeAction::<S, E>::Stop(error),
        listen_spec(event) is Accept <==> event is None || (event matches Some(
            ServeEvent::Handled(Ok(_)),
        )),
        listen_spec(event) is Handle <==> (event matches Some(ServeEvent::Accepted(Ok(_)))),
{
}

/// A listener with a serve loop.
#[derive(Debug)]
pub struct RawListener<L> {
    pub socket_name: String,
    pub raw_path: String,
    pub listener: L,
}

impl<L> RawListener<L> {
    /// Ends the bind of [`bind_requests`]: a listener for the socket that
    /// the driver bound, or `Bind` with the driver's cause.
    pub fn new<E>(socket_name: &str, bound: Result<L, E>) -> (result: Result<Self, IpcError<E>>)
        ensures
            match bound {
                Ok(listener) => result matches Ok(server) && server.socket_name@ == socket_name@
                    && server.raw_path@ == full_path_spec(socket_name@) && server.listener
                    == listener,
                Err(cause) => result matches Err(error) && error == IpcError::Bind(cause),
            },
    {
        match bound {
            Ok(listener) => Ok(
                RawListener {
                    socket_name: String::from_str(socket_name),
                    raw_path: get_full_path(socket_name),
                    listener,
                },
            ),
            Err(cause) => Err(IpcError::Bind(cause)),
        }
    }

    /// One step of the serve loop: takes what the driver reports and says
    /// what it does next. The loop ends only when an accept fails or a
    /// handler returns an error, and then with that error.
    pub fn listen<S, E>(&self, event: Option<ServeEvent<S, E>>) -> (action: ServeAction<S, E>)
        ensures
            action == listen_spec(event),
    {
        match event {
            None => ServeAction::Accept,
            Some(ServeEvent::Accepted(Ok(stream))) => ServeAction::Handle(
                Self::handle_client(stream),
            ),
            Some(ServeEvent::Accepted(Err(cause))) => ServeAction::Stop(
                IpcError::Accept(cause),
            ),
            Some(ServeEvent::Handled(Ok(()))) => ServeAction::Accept,
            Some(ServeEvent::Handled(Err(error))) => ServeAction::Stop(error),
        }
    }

    /// Ends an accept outside the serve loop: the accepted connection, or
    /// `Accept` with the driver's cause. The listener can accept again
    /// either way.
    pub fn wait_connection<S, E>(&self, accepted: Result<S, E>) -> (result: Result<
        StreamData<S>,
        IpcError<E>,
    >)
        ensures
            result == match accepted_spec(accepted) {
                Ok(stream) => Ok::<StreamData<S>, IpcError<E>>(StreamData { stream }),
                Err(error) => Err::<StreamData<S>, IpcError<E>>(error),
            },
    {
        match accepted {
            Ok(stream) => Ok(StreamData { stream }),
            Err(cause) => Err(IpcError::Accept(cause)),
        }
    }

    /// Wraps an accepted socket for the handler.
    fn handle_client<S>(stream: S) -> (data: StreamData<S>)
        ensures
            data == (StreamData { stream }),
    {
        StreamData { stream }
    }
}

} // verus!
