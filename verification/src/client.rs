//! The client side: dialing a listener, and the one-shot exchange.
use vstd::prelude::*;
use vstd::slice::slice_to_vec;

use crate::connection::Connection;
use crate::driver::{Outcome, OutcomeView, Request, RequestView};
use crate::error::IpcError;
use crate::message::{deliver, delivered, fitting};
use crate::path::{full_path_spec, get_full_path};

verus! {

/// Whether a one-shot exchange waits for the peer's answer.
#[derive(Debug)]
pub enum ResponseOption<'a> {
    /// Wait for one answer and place it in this buffer. An answer longer
    /// than the buffer is cut to fit, without an error.
    WaitForResponse(&'a mut Vec<u8>),
    /// Send and return at once.
    DontWaitForResponse,
}

impl<'a> ResponseOption<'a> {
    /// What the buffer holds now, if there is one.
    pub open spec fn buffer(self) -> Option<Seq<u8>> {
        match self {
            ResponseOption::WaitForResponse(buf) => Some(buf@),
            ResponseOption::DontWaitForResponse => None,
        }
    }
}

/// The request that dials the listener named `path`.
pub fn new_client(path: &str) -> (request: Request)
    ensures
        request@ == RequestView::Connect(full_path_spec(path@)),
{
    Request::Connect(get_full_path(path))
}

/// Ends a dial: the connection over the socket that the driver opened, or
/// `Connect` with the driver's cause.
pub fn connected<S, E>(dialed: Result<S, E>) -> (result: Result<Connection<S>, IpcError<E>>)
    ensures
        result == match dialed {
            Ok(stream) => Ok::<Connection<S>, IpcError<E>>(Connection { stream }),
            Err(cause) => Err::<Connection<S>, IpcError<E>>(IpcError::Connect(cause)),
        },
{
    match dialed {
        Ok(stream) => Ok(Connection::new(stream)),
        Err(cause) => Err(IpcError::Connect(cause)),
    }
}

/// Where a one-shot exchange stands: what its next request is about.
#[derive(Clone, Copy, Debug, PartialEq, Eq, Structural)]
pub enum Phase {
    Dialing,
    Writing,
    Reading,
    Closing,
    Finished,
}

/// A one-shot exchange under way: dial, write, read one answer if it is
/// waited for, close. It keeps nothing from earlier exchanges.
#[derive(Debug)]
pub struct OneShot<'a, E> {
    pub phase: Phase,
    pub path: String,
    pub payload: Vec<u8>,
    pub response: ResponseOption<'a>,
    pub result: Result<usize, IpcError<E>>,
}

/// A [`OneShot`] as a mathematical value. `buffer` is what the caller's
/// buffer holds, `None` where no answer is waited for.
pub struct OneShotView<E> {
    pub phase: Phase,
    pub path: Seq<char>,
    pub payload: Seq<u8>,
    pub buffer: Option<Seq<u8>>,
    pub result: Result<usize, IpcError<E>>,
}

impl<E> OneShotView<E> {
    /// The exchange before its first request.
    pub open spec fn start(payload: Seq<u8>, path: Seq<char>, buffer: Option<Seq<u8>>) -> Self {
        OneShotView { phase: Phase::Dialing, path, payload, buffer, result: Ok(0) }
    }

    /// How many bytes the buffer takes; none where there is no buffer.
    pub open spec fn room(self) -> nat {
        match self.buffer {
            Some(buf) => buf.len(),
            None => 0,
        }
    }

    /// The next request, `None` once the exchange is over.
    pub open spec fn request(self) -> Option<RequestView> {
        match self.phase {
            Phase::Dialing => Some(RequestView::Connect(self.path)),
            Phase::Writing => Some(RequestView::WriteAll(self.payload)),
            Phase::Reading => Some(RequestView::Read(self.room())),
            Phase::Closing => Some(RequestView::Close),
            Phase::Finished => None,
        }
    }

    /// The exchange with `phase` and `result` replaced.
    pub open spec fn moved(self, phase: Phase, result: Result<usize, IpcError<E>>) -> Self {
        OneShotView { phase, result, ..self }
    }

    /// The exchange after the driver answered its request with `outcome`.
    ///
    /// A failed dial ends it at once: nothing was opened. Any later cause
    /// is kept while the connection is closed. A write that went out is
    /// followed by one read exactly when an answer is waited for.
    pub open spec fn step(self, outcome: OutcomeView<E>) -> Self {
        match self.phase {
            Phase::Dialing => match outcome {
                OutcomeView::Failed(cause) => self.moved(
                    Phase::Finished,
                    Err(IpcError::Connect(cause)),
                ),
                _ => self.moved(Phase::Writing, self.result),
            },
            Phase::Writing => match outcome {
                OutcomeView::Failed(cause) => self.moved(
                    Phase::Closing,
                    Err(IpcError::Write(cause)),
                ),
                _ => if self.buffer is Some {
                    self.moved(Phase::Reading, self.result)
                } else {
                    self.moved(Phase::Closing, Ok(0))
                },
            },
            Phase::Reading => match outcome {
                OutcomeView::Failed(cause) => self.moved(
                    Phase::Closing,
                    Err(IpcError::Read(cause)),
                ),
                _ => OneShotView {
                    phase: Phase::Closing,
                    result: Ok(fitting(self.room(), outcome.bytes().len()) as usize),
                    buffer: match self.buffer {
                        Some(buf) => Some(delivered(buf, outcome.bytes())),
                        None => None,
                    },
                    ..self
                },
            },
            Phase::Closing => self.moved(Phase::Finished, self.result),
            Phase::Finished => self,
        }
    }

    /// The exchange after the driver answered its requests with `outcomes`,
    /// one after the other.
    pub open spec fn run(self, outcomes: Seq<OutcomeView<E>>) -> Self
        decreases outcomes.len(),
    {
        if outcomes.len() == 0 {
            self
        } else {
            self.step(outcomes[0]).run(outcomes.drop_first())
        }
    }

    /// How far the exchange has come: each phase lies after the one before.
    pub open spec fn rank(self) -> nat {
        match self.phase {
            Phase::Dialing => 0,
            Phase::Writing => 1,
            Phase::Reading => 2,
            Phase::Closing => 3,
            Phase::Finished => 4,
        }
    }

    /// An exchange that waits for no answer and is not about to read.
    pub open spec fn silent(self) -> bool {
        &&& self.buffer is None
        &&& self.phase != Phase::Reading
        &&& self.result is Ok ==> self.result == Ok::<usize, IpcError<E>>(0)
    }

    /// What the exchange returned, `None` while it is under way.
    pub open spec fn outcome(self) -> Option<Result<usize, IpcError<E>>> {
        if self.phase == Phase::Finished {
            Some(self.result)
        } else {
            None
        }
    }
}

/// An exchange only moves forward. Until it is over every answer takes it
/// to a later phase, so it makes each request at most once, reads at most
/// once, and is over after four answers at the latest.
pub proof fn law_exchange_moves_forward<E>(exchange: OneShotView<E>, outcome: OutcomeView<E>)
    ensures
        exchange.phase != Phase::Finished ==> exchange.step(outcome).rank() > exchange.rank(),
        exchange.phase == Phase::Finished ==> exchange.step(outcome) == exchange,
        exchange.step(outcome).path == exchange.path,
        exchange.step(outcome).payload == exchange.payload,
        exchange.step(outcome).buffer is Some <==> exchange.buffer is Some,
{
}

/// An exchange is over after four answers, whatever they are.
pub proof fn law_exchange_ends<E>(exchange: OneShotView<E>, outcomes: Seq<OutcomeView<E>>)
    requires
        outcomes.len() >= 4,
    ensures
        exchange.run(outcomes).phase == Phase::Finished,
{
    lemma_run_ranks(exchange, outcomes);
}

/// After `outcomes` the exchange is over or has come as far as there were
/// answers.
proof fn lemma_run_ranks<E>(exchange: OneShotView<E>, outcomes: Seq<OutcomeView<E>>)
    ensures
        exchange.run(outcomes).phase == Phase::Finished || exchange.run(outcomes).rank()
            >= exchange.rank() + outcomes.len(),
    decreases outcomes.len(),
{
    if outcomes.len() > 0 {
        law_exchange_moves_forward(exchange, outcomes[0]);
        lemma_run_ranks(exchange.step(outcomes[0]), outcomes.drop_first());
        if exchange.phase == Phase::Finished {
            lemma_finished_stays(exchange, outcomes.drop_first());
        }
    }
}

/// An exchange that is over stays as it is.
proof fn lemma_finished_stays<E>(exchange: OneShotView<E>, outcomes: Seq<OutcomeView<E>>)
    requires
        exchange.phase == Phase::Finished,
    ensures
        exchange.run(outcomes) == exchange,
    decreases outcomes.len(),
{
    if outcomes.len() > 0 {
        lemma_finished_stays(exchange, outcomes.drop_first());
    }
}

/// The connection is closed before the exchange returns. An exchange ends
/// either on a dial that failed, when nothing was opened, or on the answer
/// to its request to close.
pub proof fn law_exchange_closes<E>(exchange: OneShotView<E>, outcome: OutcomeView<E>)
    requires
        exchange.phase != Phase::Finished,
        exchange.step(outcome).phase == Phase::Finished,
    ensures
        (exchange.phase == Phase::Dialing && outcome is Failed) || exchange.request() == Some(
            RequestView::Close,
        ),
{
}

/// An exchange that waits for no answer never reads. Whatever the driver
/// answers, and however often, it makes no request to read, and if it
/// returns without an error it returns 0.
pub proof fn law_fire_and_forget_never_reads<E>(
    payload: Seq<u8>,
    path: Seq<char>,
    outcomes: Seq<OutcomeView<E>>,
)
    ensures
        !(OneShotView::<E>::start(payload, path, None).run(outcomes).request() matches Some(
            RequestView::Read(_),
        )),
        OneShotView::<E>::start(payload, path, None).run(outcomes).outcome() matches Some(Ok(count))
            ==> count == 0,
{
    lemma_silent_run(OneShotView::<E>::start(payload, path, None), outcomes);
}

/// A silent exchange stays silent.
proof fn lemma_silent_run<E>(exchange: OneShotView<E>, outcomes: Seq<OutcomeView<E>>)
    requires
        exchange.silent(),
    ensures
        exchange.run(outcomes).silent(),
    decreases outcomes.len(),
{
    if outcomes.len() > 0 {
        lemma_silent_run(exchange.step(outcomes[0]), outcomes.drop_first());
    }
}

/// Fire and forget, step by step. Where dialing and writing do not fail,
/// the exchange dials the path, writes the payload, closes, and returns 0,
/// whatever the driver answers to the close: bytes that the peer wrote are
/// not looked at.
pub proof fn law_fire_and_forget<E>(
    payload: Seq<u8>,
    path: Seq<char>,
    dialed: OutcomeView<E>,
    wrote: OutcomeView<E>,
    closed: OutcomeView<E>,
)
    requires
        !(dialed is Failed),
        !(wrote is Failed),
    ensures
        ({
            let start = OneShotView::<E>::start(payload, path, None);
            &&& start.request() == Some(RequestView::Connect(path))
            &&& start.step(dialed).request() == Some(RequestView::WriteAll(payload))
            &&& start.step(dialed).step(wrote).request() == Some(RequestView::Close)
            &&& start.step(dialed).step(wrote).step(closed).outcome() == Some(
                Ok::<usize, IpcError<E>>(0),
            )
        }),
{
}

/// Send and wait, step by step. Where dialing and writing do not fail, the
/// exchange dials the path, writes the payload, makes one read for as many
/// bytes as the buffer holds, and closes. It returns how many of the
/// answer's bytes fit the buffer, which then starts with them; bytes that
/// do not fit are dropped, and a read that fails is the error returned.
pub proof fn law_send_and_wait<E>(
    payload: Seq<u8>,
    path: Seq<char>,
    buf: Seq<u8>,
    dialed: OutcomeView<E>,
    wrote: OutcomeView<E>,
    answer: OutcomeView<E>,
    closed: OutcomeView<E>,
)
    requires
        !(dialed is Failed),
        !(wrote is Failed),
        buf.len() <= usize::MAX,
    ensures
        ({
            let start = OneShotView::<E>::start(payload, path, Some(buf));
            let end = start.step(dialed).step(wrote).step(answer).step(closed);
            &&& start.request() == Some(RequestView::Connect(path))
            &&& start.step(dialed).request() == Some(RequestView::WriteAll(payload))
            &&& start.step(dialed).step(wrote).request() == Some(RequestView::Read(buf.len()))
            &&& start.step(dialed).step(wrote).step(answer).request() == Some(RequestView::Close)
            &&& end.phase == Phase::Finished
            &&& answer matches OutcomeView::<E>::Failed(cause) ==> end.result == Err::<
                usize,
                IpcError<E>,
            >(IpcError::Read(cause)) && end.buffer == Some(buf)
            &&& !(answer is Failed) ==> end.result == Ok::<usize, IpcError<E>>(
                fitting(buf.len(), answer.bytes().len()) as usize,
            ) && end.buffer == Some(delivered(buf, answer.bytes()))
        }),
{
}

/// The first cause is the error returned, and ends the requests but for
/// the close of a connection that was opened.
pub proof fn law_exchange_failures<E>(
    exchange: OneShotView<E>,
    cause: E,
    closed: OutcomeView<E>,
)
    ensures
        exchange.phase == Phase::Dialing ==> exchange.step(
            OutcomeView::<E>::Failed(cause),
        ).outcome() == Some(Err::<usize, IpcError<E>>(IpcError::Connect(cause))),
        exchange.phase == Phase::Writing ==> exchange.step(
            OutcomeView::<E>::Failed(cause),
        ).request() == Some(RequestView::Close) && exchange.step(
            OutcomeView::<E>::Failed(cause),
        ).step(closed).outcome() == Some(Err::<usize, IpcError<E>>(IpcError::Write(cause))),
        exchange.phase == Phase::Reading ==> exchange.step(
            OutcomeView::<E>::Failed(cause),
        ).request() == Some(RequestView::Close) && exchange.step(
            OutcomeView::<E>::Failed(cause),
        ).step(closed).outcome() == Some(Err::<usize, IpcError<E>>(IpcError::Read(cause))),
{
}

impl<'a, E> View for OneShot<'a, E> {
    type V = OneShotView<E>;

    open spec fn view(&self) -> OneShotView<E> {
        OneShotView {
            phase: self.phase,
            path: self.path@,
            payload: self.payload@,
            buffer: self.response.buffer(),
            result: self.result,
        }
    }
}

/// Starts a one-shot exchange that sends `data` to the listener named
/// `path`. The exchange holds the caller's buffer, if there is one, and
/// nothing else writes to it until the exchange is gone.
pub fn send_one_shot<'a, E>(
    data: &[u8],
    path: &str,
    wait_for_response: ResponseOption<'a>,
) -> (exchange: OneShot<'a, E>)
    ensures
        exchange@ == OneShotView::<E>::start(
            data@,
            full_path_spec(path@),
            wait_for_response.buffer(),
        ),
        wait_for_response matches ResponseOption::WaitForResponse(buf) ==> (exchange.response
            matches ResponseOption::WaitForResponse(held) && *final(held) == *final(buf)),
{
    OneShot {
        phase: Phase::Dialing,
        path: get_full_path(path),
        payload: slice_to_vec(data),
        response: wait_for_response,
        result: Ok(0),
    }
}

impl<'a, E> OneShot<'a, E> {
    /// The next request for the driver, `None` once the exchange is over.
    pub fn request(&self) -> (request: Option<Request>)
        ensures
            request.is_some() == self@.request().is_some(),
            request matches Some(r) ==> self@.request() == Some(r@),
    {
        match self.phase {
            Phase::Dialing => Some(Request::Connect(self.path.clone())),
            Phase::Writing => Some(Request::WriteAll(slice_to_vec(self.payload.as_slice()))),
            Phase::Reading => match &self.response {
                ResponseOption::WaitForResponse(buf) => Some(Request::Read(buf.len())),
                ResponseOption::DontWaitForResponse => Some(Request::Read(0)),
            },
            Phase::Closing => Some(Request::Close),
            Phase::Finished => None,
        }
    }

    /// Takes the driver's answer to the last request and moves on. The
    /// answer to a read is placed at the start of the caller's buffer,
    /// which the exchange goes on holding.
    pub fn advance(self, outcome: Outcome<E>) -> (next: OneShot<'a, E>)
        ensures
            next@ == self@.step(outcome@),
            self.response matches ResponseOption::WaitForResponse(buf) ==> (next.response
                matches ResponseOption::WaitForResponse(held) && *final(held) == *final(buf)),
    {
        let OneShot { phase, path, payload, response, result } = self;
        match phase {
            Phase::Dialing => match outcome {
                Outcome::Failed(cause) => OneShot {
                    phase: Phase::Finished,
                    path,
                    payload,
                    response,
                    result: Err(IpcError::Connect(cause)),
                },
                _ => OneShot { phase: Phase::Writing, path, payload, response, result },
            },
            Phase::Writing => match outcome {
                Outcome::Failed(cause) => OneShot {
                    phase: Phase::Closing,
                    path,
                    payload,
                    response,
                    result: Err(IpcError::Write(cause)),
                },
                _ => match response {
                    ResponseOption::WaitForResponse(buf) => OneShot {
                        phase: Phase::Reading,
                        path,
                        payload,
                        response: ResponseOption::WaitForResponse(buf),
                        result,
                    },
                    ResponseOption::DontWaitForResponse => OneShot {
                        phase: Phase::Closing,
                        path,
                        payload,
                        response: ResponseOption::DontWaitForResponse,
                        result: Ok(0),
                    },
                },
            },
            Phase::Reading => match outcome {
                Outcome::Failed(cause) => OneShot {
                    phase: Phase::Closing,
                    path,
                    payload,
                    response,
                    result: Err(IpcError::Read(cause)),
                },
                Outcome::Done => match response {
                    ResponseOption::WaitForResponse(buf) => {
                        assert(buf@ =~= delivered(buf@, Seq::empty()));
                        OneShot {
                            phase: Phase::Closing,
                            path,
                            payload,
                            response: ResponseOption::WaitForResponse(buf),
                            result: Ok(0),
                        }
                    },
                    ResponseOption::DontWaitForResponse => OneShot {
                        phase: Phase::Closing,
                        path,
                        payload,
                        response: ResponseOption::DontWaitForResponse,
                        result: Ok(0),
                    },
                },
                Outcome::Received(bytes) => match response {
                    ResponseOption::WaitForResponse(buf) => {
                        let count = deliver(buf.as_mut_slice(), bytes.as_slice());
                        OneShot {
                            phase: Phase::Closing,
                            path,
                            payload,
                            response: ResponseOption::WaitForResponse(buf),
                            result: Ok(count),
                        }
                    },
                    ResponseOption::DontWaitForResponse => OneShot {
                        phase: Phase::Closing,
                        path,
                        payload,
                        response: ResponseOption::DontWaitForResponse,
                        result: Ok(0),
                    },
                },
            },
            Phase::Closing => OneShot { phase: Phase::Finished, path, payload, response, result },
            Phase::Finished => OneShot { phase, path, payload, response, result },
        }
    }

    /// Gives up the exchange for what it returned: the length of the answer,
    /// 0 where none was waited for, or the first cause, with the driver's
    /// cause as it came. `None` if the exchange was still under way. The
    /// caller's buffer is left as the exchange filled it.
    pub fn into_result(self) -> (result: Option<Result<usize, IpcError<E>>>)
        ensures
            result == self@.outcome(),
            self.response matches ResponseOption::WaitForResponse(buf) ==> *final(buf) == *buf,
    {
        let OneShot { phase, path: _, payload: _, response: _, result } = self;
        match phase {
            Phase::Finished => Some(result),
            _ => None,
        }
    }
}

} // verus!
