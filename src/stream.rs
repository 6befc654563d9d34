//! The exchange stream: the engine that drives frames through the protocol parser and a
//! transformer, buffering what one frame produces and handing it out one item at a time.
use vstd::prelude::*;
use std::collections::VecDeque;
use tokio_tungstenite::tungstenite::Error as WsError;
use crate::error::SocketError;
use crate::protocol::{parse_spec, Frame, WebSocketParser};
use crate::time::{now, Timestamp};

verus! {

/// Maps one deserialised exchange message to zero or more outputs, each of which may be an
/// error, maintaining whatever state it needs between messages.
pub trait Transformer: Sized {
    type Input;
    type Output;

    /// Whether transforming `input` at time `now` may take the transformer from `prev` to
    /// `next` while producing `out`, in order.
    spec fn transformed(
        prev: Self,
        input: Self::Input,
        now: Timestamp,
        next: Self,
        out: Seq<Result<Self::Output, SocketError>>,
    ) -> bool;

    fn transform(&mut self, input: Self::Input, now: Timestamp) -> (out: Vec<
        Result<Self::Output, SocketError>,
    >)
        ensures
            Self::transformed(*old(self), input, now, *final(self), out@),
    ;
}

/// Types that can check whether their state is fit for the use they are put to.
pub trait Validator: Sized {
    fn validate(self) -> Result<Self, SocketError>;
}

/// The mathematical state of an [`ExchangeStream`].
pub struct StreamView<T: Transformer> {
    pub transformer: T,
    /// Items produced and not yet pulled, oldest first.
    pub buffer: Seq<Result<T::Output, SocketError>>,
    /// Whether the transport is exhausted or a terminal error has been produced.
    pub terminated: bool,
    /// Every item produced so far, in the order it was produced.
    pub produced: Seq<Result<T::Output, SocketError>>,
    /// Every item pulled so far, in the order it was pulled.
    pub delivered: Seq<Result<T::Output, SocketError>>,
}

impl<T: Transformer> StreamView<T> {
    /// What was pulled, followed by what waits in the buffer, is all that was produced.
    pub open spec fn wf(self) -> bool {
        self.produced == self.delivered + self.buffer
    }

    /// The state after `item` is produced: it joins the back of the buffer.
    pub open spec fn produce(self, item: Result<T::Output, SocketError>) -> StreamView<T> {
        StreamView {
            buffer: self.buffer.push(item),
            produced: self.produced.push(item),
            ..self
        }
    }
}

/// Whether handling the transport item `input` (`None`: the transport is exhausted) at time
/// `now` may take the stream from `prev` to `next`.
pub open spec fn handled<T: Transformer>(
    prev: StreamView<T>,
    input: Option<Result<Frame<T::Input>, WsError>>,
    now: Timestamp,
    next: StreamView<T>,
) -> bool {
    if prev.terminated {
        next == prev
    } else {
        match input {
            None => next == StreamView { terminated: true, ..prev },
            Some(item) => match parse_spec(item) {
                None => next == prev,
                Some(Err(e)) => next == StreamView {
                    terminated: e.spec_is_terminal(),
                    ..prev.produce(Err(e))
                },
                Some(Ok(message)) => {
                    let n = prev.buffer.len();
                    let out = next.buffer.skip(n as int);
                    &&& next.buffer.len() >= n
                    &&& next.buffer.take(n as int) == prev.buffer
                    &&& next.produced == prev.produced + out
                    &&& next.delivered == prev.delivered
                    &&& next.terminated == prev.terminated
                    &&& T::transformed(prev.transformer, message, now, next.transformer, out)
                },
            },
        }
    }
}

/// One pull from the state `v`: the state after it and what it answers. The oldest buffered
/// item if there is one; otherwise `Done` once the stream has ended and `Pending` before.
pub open spec fn pull_spec<T: Transformer>(v: StreamView<T>) -> (
    StreamView<T>,
    StreamPoll<Result<T::Output, SocketError>>,
) {
    if v.buffer.len() > 0 {
        (
            StreamView {
                buffer: v.buffer.drop_first(),
                delivered: v.delivered.push(v.buffer[0]),
                ..v
            },
            StreamPoll::Ready(v.buffer[0]),
        )
    } else if v.terminated {
        (v, StreamPoll::Done)
    } else {
        (v, StreamPoll::Pending)
    }
}

/// Outcome of one pull on an [`ExchangeStream`].
#[derive(Debug)]
pub enum StreamPoll<I> {
    /// The next item.
    Ready(I),
    /// Nothing is buffered: the next transport item is needed.
    Pending,
    /// The stream has ended: no item will follow.
    Done,
}

/// A protocol-agnostic stream of transformed items over one exchange connection.
///
/// The transport itself is driven by the caller: [`ExchangeStream::poll_next`] hands out
/// what is buffered, and answers [`StreamPoll::Pending`] when the next transport item is
/// needed, which the caller passes to [`ExchangeStream::handle_input`].
pub struct ExchangeStream<T: Transformer> {
    transformer: T,
    buffer: VecDeque<Result<T::Output, SocketError>>,
    terminated: bool,
    produced: Ghost<Seq<Result<T::Output, SocketError>>>,
    delivered: Ghost<Seq<Result<T::Output, SocketError>>>,
}

impl<T: Transformer> View for ExchangeStream<T> {
    type V = StreamView<T>;

    closed spec fn view(&self) -> StreamView<T> {
        StreamView {
            transformer: self.transformer,
            buffer: self.buffer@,
            terminated: self.terminated,
            produced: self.produced@,
            delivered: self.delivered@,
        }
    }
}

impl<T: Transformer> ExchangeStream<T> {
    pub fn new(transformer: T) -> (r: ExchangeStream<T>)
        ensures
            r@.transformer == transformer,
            r@.buffer.len() == 0,
            !r@.terminated,
            r@.produced.len() == 0,
            r@.delivered.len() == 0,
            r@.wf(),
    {
        ExchangeStream {
            transformer,
            buffer: VecDeque::new(),
            terminated: false,
            produced: Ghost(Seq::empty()),
            delivered: Ghost(Seq::empty()),
        }
    }

    pub fn transformer(&self) -> (r: &T)
        ensures
            *r == self@.transformer,
    {
        &self.transformer
    }

    pub fn is_terminated(&self) -> (r: bool)
        ensures
            r == self@.terminated,
    {
        self.terminated
    }

    /// Pulls the next item: the oldest buffered one if there is one; otherwise
    /// [`StreamPoll::Done`] once the stream has ended, and [`StreamPoll::Pending`] before.
    pub fn poll_next(&mut self) -> (r: StreamPoll<Result<T::Output, SocketError>>)
        ensures
            (final(self)@, r) == pull_spec(old(self)@),
            old(self)@.wf() ==> final(self)@.wf(),
            old(self)@.buffer.len() > 0 ==> {
                &&& r == StreamPoll::Ready(old(self)@.buffer[0])
                &&& final(self)@ == StreamView {
                    buffer: old(self)@.buffer.drop_first(),
                    delivered: old(self)@.delivered.push(old(self)@.buffer[0]),
                    ..old(self)@
                }
            },
            old(self)@.buffer.len() == 0 ==> {
                &&& final(self)@ == old(self)@
                &&& r == if old(self)@.terminated {
                    StreamPoll::<Result<T::Output, SocketError>>::Done
                } else {
                    StreamPoll::Pending
                }
            },
    {
        match self.buffer.pop_front() {
            Some(item) => {
                proof {
                    assert(old(self)@.delivered.push(item) + self.buffer@ =~= old(self)@.delivered
                        + old(self)@.buffer);
                }
                self.delivered = Ghost(self.delivered@.push(item));
                StreamPoll::Ready(item)
            },
            None => {
                if self.terminated {
                    StreamPoll::Done
                } else {
                    StreamPoll::Pending
                }
            },
        }
    }

    /// Handles the next transport item (`None`: the transport is exhausted), read at time
    /// `now`: parses it, and buffers the error it makes or what the transformer produces from
    /// its message. Nothing is handled once the stream has ended.
    pub fn handle_input_at(
        &mut self,
        input: Option<Result<Frame<T::Input>, WsError>>,
        now: Timestamp,
    )
        ensures
            handled(old(self)@, input, now, final(self)@),
            old(self)@.wf() ==> final(self)@.wf(),
    {
        if self.terminated {
            return ;
        }
        match input {
            None => {
                self.terminated = true;
            },
            Some(item) => match WebSocketParser::parse(item) {
                None => {},
                Some(Err(e)) => {
                    let terminal = e.is_terminal();
                    self.produced = Ghost(self.produced@.push(Err(e)));
                    self.buffer.push_back(Err(e));
                    self.terminated = terminal;
                },
                Some(Ok(message)) => {
                    let ghost prev = self@;
                    let out = self.transformer.transform(message, now);
                    let ghost out0 = out@;
                    let mut rest = out;
                    while rest.len() > 0
                        invariant
                            self.buffer@ == prev.buffer + out0.take(out0.len() - rest@.len()),
                            rest@ == out0.skip(out0.len() - rest@.len()),
                            rest@.len() <= out0.len(),
                            self.terminated == prev.terminated,
                            self.produced@ == prev.produced,
                            self.delivered@ == prev.delivered,
                            T::transformed(prev.transformer, message, now, self.transformer, out0),
                        decreases rest@.len(),
                    {
                        let ghost k = out0.len() - rest@.len();
                        let item = rest.remove(0);
                        assert(item == out0[k]);
                        self.buffer.push_back(item);
                        assert(out0.take(k + 1) =~= out0.take(k).push(item));
                        assert(rest@ =~= out0.skip(k + 1));
                    }
                    proof {
                        assert(out0.take(out0.len() as int) =~= out0);
                        assert(self.buffer@.take(prev.buffer.len() as int) =~= prev.buffer);
                        assert(self.buffer@.skip(prev.buffer.len() as int) =~= out0);
                    }
                    self.produced = Ghost(self.produced@ + out0);
                    proof {
                        assert(self.produced@ =~= prev.produced + self.buffer@.skip(
                            prev.buffer.len() as int,
                        ));
                        if prev.wf() {
                            assert(self.produced@ =~= self.delivered@ + self.buffer@);
                        }
                    }
                },
            },
        }
    }

    /// Handles the next transport item as [`ExchangeStream::handle_input_at`] does, at the
    /// current wall-clock time as [`now`] reads it (the epoch where the clock reads before it).
    pub fn handle_input(&mut self, input: Option<Result<Frame<T::Input>, WsError>>)
        ensures
            exists|t: Timestamp| handled(old(self)@, input, t, final(self)@),
            old(self)@.wf() ==> final(self)@.wf(),
    {
        let t = now();
        self.handle_input_at(input, t);
    }
}

} // verus!
