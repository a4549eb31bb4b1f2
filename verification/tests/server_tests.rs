use ipc::async_wrapper::{connected_async, new_client_async, AsyncConnection, AsyncServer};
use ipc::server::async_wrapper::AsyncListener;
use ipc::{
    bind_requests, Connection, IpcError, Outcome, RawListener, Request, ServeAction, ServeEvent,
    Server, StreamData,
};
use std::io::ErrorKind;

type Answer = Outcome<ErrorKind>;

/// What a driver reports when the operating system granted its request.
fn granted<T>(handle: T) -> Result<T, ErrorKind> {
    Ok(handle)
}

#[test]
fn bind_removes_the_stale_file_first() {
    assert_eq!(
        bind_requests("echo.sock"),
        vec![
            Request::RemoveFile("/tmp/echo.sock".to_string()),
            Request::Bind("/tmp/echo.sock".to_string()),
        ]
    );
}

#[test]
fn bind_of_an_absolute_name() {
    assert_eq!(
        bind_requests("/run/echo.sock"),
        vec![
            Request::RemoveFile("/run/echo.sock".to_string()),
            Request::Bind("/run/echo.sock".to_string()),
        ]
    );
}

#[test]
fn bound_listener_keeps_name_and_path() {
    let server = Server::new("basic.sock", granted(11u8)).unwrap();
    assert_eq!(server.socket_name, "basic.sock");
    assert_eq!(server.raw_path, "/tmp/basic.sock");
    assert_eq!(server.listener, 11);
}

#[test]
fn failed_bind_is_a_bind_error() {
    for failure in [ErrorKind::PermissionDenied, ErrorKind::NotFound, ErrorKind::AddrInUse] {
        let result = Server::<u8>::new("basic.sock", Err(failure));
        assert_eq!(result.err(), Some(IpcError::Bind(failure)));
    }
}

#[test]
fn bind_succeeds_after_an_earlier_one_failed() {
    let first = Server::<u8>::new("again.sock", Err(ErrorKind::AddrInUse));
    assert_eq!(first.err(), Some(IpcError::Bind(ErrorKind::AddrInUse)));
    let second = Server::new("again.sock", granted(1u8)).unwrap();
    assert_eq!(second.raw_path, "/tmp/again.sock");
}

#[test]
fn accepted_socket_becomes_a_connection() {
    let server = Server::new("basic.sock", granted(0u8)).unwrap();
    assert_eq!(server.wait_connection(granted(42u16)), Ok(Connection::new(42u16)));
}

#[test]
fn listener_is_usable_after_a_failed_accept() {
    let server = Server::new("basic.sock", granted(0u8)).unwrap();
    assert_eq!(
        server.wait_connection::<u16, ErrorKind>(Err(ErrorKind::Other)),
        Err(IpcError::Accept(ErrorKind::Other))
    );
    assert_eq!(server.wait_connection(granted(1u16)), Ok(Connection::new(1u16)));
    assert_eq!(server.raw_path, "/tmp/basic.sock");
}

#[test]
fn raw_listener_binds_like_the_server() {
    let listener = RawListener::new("/run/raw.sock", granted(5u8)).unwrap();
    assert_eq!(listener.socket_name, "/run/raw.sock");
    assert_eq!(listener.raw_path, "/run/raw.sock");
    assert_eq!(listener.listener, 5);
    let failed = RawListener::<u8>::new("raw.sock", Err(ErrorKind::PermissionDenied));
    assert_eq!(failed.err(), Some(IpcError::Bind(ErrorKind::PermissionDenied)));
}

#[test]
fn raw_listener_hands_out_stream_data() {
    let listener = RawListener::new("raw.sock", granted(5u8)).unwrap();
    assert_eq!(listener.wait_connection(granted(9u16)), Ok(StreamData { stream: 9u16 }));
    assert_eq!(
        listener.wait_connection::<u16, ErrorKind>(Err(ErrorKind::TimedOut)),
        Err(IpcError::Accept(ErrorKind::TimedOut))
    );
}

#[test]
fn serve_loop_starts_by_accepting() {
    let listener = RawListener::new("loop.sock", granted(0u8)).unwrap();
    assert_eq!(listener.listen::<u16, ErrorKind>(None), ServeAction::Accept);
}

#[test]
fn serve_loop_hands_each_connection_to_the_handler() {
    let listener = RawListener::new("loop.sock", granted(0u8)).unwrap();
    assert_eq!(
        listener.listen(Some(ServeEvent::Accepted(granted(3u16)))),
        ServeAction::Handle(StreamData { stream: 3u16 })
    );
}

#[test]
fn serve_loop_accepts_again_after_a_handler() {
    let listener = RawListener::new("loop.sock", granted(0u8)).unwrap();
    assert_eq!(listener.listen::<u16, ErrorKind>(Some(ServeEvent::Handled(Ok(())))), ServeAction::Accept);
}

#[test]
fn serve_loop_stops_on_a_failed_accept() {
    let listener = RawListener::new("loop.sock", granted(0u8)).unwrap();
    assert_eq!(
        listener.listen::<u16, ErrorKind>(Some(ServeEvent::Accepted(Err(ErrorKind::Other)))),
        ServeAction::Stop(IpcError::Accept(ErrorKind::Other))
    );
}

#[test]
fn serve_loop_stops_on_a_handler_error() {
    let listener = RawListener::new("loop.sock", granted(0u8)).unwrap();
    assert_eq!(
        listener.listen::<u16, ErrorKind>(Some(ServeEvent::Handled(Err(IpcError::EndOfStream)))),
        ServeAction::Stop(IpcError::EndOfStream)
    );
}

#[test]
fn serve_loop_serves_many_peers() {
    let listener = RawListener::new("loop.sock", granted(0u8)).unwrap();
    let mut served = Vec::new();
    let mut peers = vec![Ok(1u16), Ok(2), Ok(3), Err(ErrorKind::Other)].into_iter();
    let mut action = listener.listen(None);
    let stopped = loop {
        action = match action {
            ServeAction::Accept => listener.listen(Some(ServeEvent::Accepted(
                peers.next().unwrap(),
            ))),
            ServeAction::Handle(data) => {
                served.push(data.stream);
                listener.listen(Some(ServeEvent::Handled(Ok(()))))
            }
            ServeAction::Stop(error) => break error,
        };
    };
    assert_eq!(served, vec![1, 2, 3]);
    assert_eq!(stopped, IpcError::Accept(ErrorKind::Other));
}

#[test]
fn async_listener_reports_the_path_it_is_bound_to() {
    let listener = AsyncListener::new("coop.sock", granted(0u8)).unwrap();
    assert_eq!(listener.get_raw_path(), "/tmp/coop.sock");
    assert_eq!(listener.ipc_server.socket_name, "coop.sock");
    let absolute = AsyncListener::new("/srv/coop.sock", granted(0u8)).unwrap();
    assert_eq!(absolute.get_raw_path(), "/srv/coop.sock");
}

#[test]
fn async_listener_fails_to_bind_like_the_others() {
    let failed = AsyncListener::<u8>::new("coop.sock", Err(ErrorKind::AddrInUse));
    assert_eq!(failed.err(), Some(IpcError::Bind(ErrorKind::AddrInUse)));
}

#[test]
fn async_listener_accepts() {
    let listener = AsyncListener::new("coop.sock", granted(0u8)).unwrap();
    let connection = listener.wait_for_connection(granted(8u16)).unwrap();
    assert_eq!(connection.stream, 8);
    assert_eq!(
        listener.wait_for_connection::<u16, ErrorKind>(Err(ErrorKind::Other)).err(),
        Some(IpcError::Accept(ErrorKind::Other))
    );
    assert_eq!(connection.read_request(), Request::Read(1024));
    assert_eq!(connection.read_text(Answer::Received(b"hi".to_vec())), Ok("hi".to_string()));
    assert_eq!(connection.read_text(Answer::Done), Err(IpcError::EndOfStream));
    let text: Result<String, IpcError<ErrorKind>> = connection.read(Answer::Received(b"yo".to_vec()));
    assert_eq!(text, Ok("yo".to_string()));
    assert_eq!(connection.send("ok"), Request::WriteAll(b"ok".to_vec()));
    assert_eq!(connection.sent(Answer::Done), Ok(()));
    assert_eq!(
        connection.sent(Answer::Failed(ErrorKind::TimedOut)),
        Err(IpcError::Write(ErrorKind::TimedOut))
    );
}

#[test]
fn async_server_binds_and_accepts() {
    let server = AsyncServer::new("task.sock", granted(0u8)).unwrap();
    assert_eq!(server.get_raw_path(), "task.sock");
    assert_eq!(server.get_raw_path(), "task.sock");
    assert_eq!(server.raw_path, "task.sock");
    assert_eq!(server.full_path, "/tmp/task.sock");
    let absolute = AsyncServer::new("/srv/task.sock", granted(0u8)).unwrap();
    assert_eq!(absolute.get_raw_path(), "/srv/task.sock");
    assert_eq!(absolute.full_path, "/srv/task.sock");
    assert_eq!(server.wait_for_connection(granted(4u16)), Ok(AsyncConnection::new(4u16)));
    assert_eq!(
        server.wait_for_connection::<u16, ErrorKind>(Err(ErrorKind::Other)),
        Err(IpcError::Accept(ErrorKind::Other))
    );
    assert_eq!(
        AsyncServer::<u8>::new("task.sock", Err(ErrorKind::NotFound)).err(),
        Some(IpcError::Bind(ErrorKind::NotFound))
    );
}

#[test]
fn async_dial() {
    assert_eq!(new_client_async("task.sock"), Request::Connect("/tmp/task.sock".to_string()));
    assert_eq!(connected_async(granted(2u8)), Ok(AsyncConnection::new(2u8)));
    assert_eq!(
        connected_async::<u8, ErrorKind>(Err(ErrorKind::ConnectionRefused)),
        Err(IpcError::Connect(ErrorKind::ConnectionRefused))
    );
}

#[test]
fn async_connection_reads_and_sends_like_the_blocking_one() {
    let connection = AsyncConnection::new(0u8);
    let mut buf = [0u8; 8];
    assert_eq!(connection.read_raw_request(&buf), Request::Read(8));
    assert_eq!(connection.read_raw(&mut buf, Answer::Received(vec![1, 2, 3])), Ok(3));
    assert_eq!(buf, [1, 2, 3, 0, 0, 0, 0, 0]);
    assert_eq!(
        connection.read_raw(&mut buf, Answer::Received(Vec::new())),
        Err(IpcError::EndOfStream)
    );
    assert_eq!(
        connection.read_raw(&mut buf, Answer::Failed(ErrorKind::ConnectionReset)),
        Err(IpcError::Read(ErrorKind::ConnectionReset))
    );
    assert_eq!(connection.read_request(), Request::Read(1024));
    assert_eq!(
        connection.read_text(Answer::Received(vec![0xff])),
        Ok("\u{fffd}".to_string())
    );
    let text: Result<String, IpcError<ErrorKind>> = connection.read(Answer::Received(Vec::new()));
    assert_eq!(text, Err(IpcError::EndOfStream));
    assert_eq!(connection.send("World!"), Request::WriteAll(b"World!".to_vec()));
    assert_eq!(connection.sent(Answer::Done), Ok(()));
}
