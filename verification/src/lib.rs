//! Local inter-process communication over Unix domain sockets, as a
//! transport-free core.
//!
//! The crate decides; it never touches a socket. Every operation is split
//! into the request that a driver has to carry out ([`Request`]) and the
//! verified function that turns the driver's answer into the result the
//! caller sees. A blocking driver and a cooperative one share the same
//! decisions, the same path rules and the same errors.
//!
//! - [`path`]: from a socket name to the path to bind or dial.
//! - [`driver`]: the requests, and the answers to those made on a
//!   connection.
//! - [`message`]: what a read returned, as bytes in a buffer or as text.
//! - [`connection`]: reading from and sending to one peer.
//! - [`client`]: dialing, and the one-shot exchange.
//! - [`server`]: binding, accepting, and the serve loop.
//! - [`async_wrapper`] and [`server::async_wrapper`]: the same for a
//!   cooperative driver.
//!
//! Where the driver opens something (a bind, an accept, a dial), it hands
//! the library the handle or the cause of the failure, and the library
//! wraps the handle in the type that owns it from then on.
pub mod async_wrapper;
pub mod client;
pub mod connection;
pub mod driver;
pub mod error;
pub mod message;
pub mod path;
pub mod server;

pub use client::{connected, new_client, send_one_shot, OneShot, OneShotView, Phase, ResponseOption};
pub use connection::Connection;
pub use driver::{Outcome, OutcomeView, Request, RequestView};
pub use error::IpcError;
pub use message::READ_BUFFER_SIZE;
pub use path::{get_full_path, resolve, SEPARATOR, SOCKET_PATH};
pub use server::{bind_requests, RawListener, ServeAction, ServeEvent, Server, StreamData};
