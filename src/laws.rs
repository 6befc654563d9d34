//! Properties of the pipeline that hold across calls: ordering of pulled items, sequencing
//! per subscription, and how skips, unmatched messages and close frames are handled.
use vstd::prelude::*;
use tokio_tungstenite::tungstenite::Error as WsError;
use crate::binance::{
    binance_transformed, register_all, BinanceFutures, BinanceMessage, BinanceTrade,
};
use crate::error::SocketError;
use crate::market::{MarketEvent, Sequence, StreamIdentifier, StreamMeta, Subscription};
use crate::protocol::{parse_spec, Frame};
use crate::stream::{handled, pull_spec, StreamPoll, StreamView, Transformer};
use crate::time::Timestamp;

verus! {

/// Items are pulled in the order in which they were produced: what has been pulled is always
/// the start of everything produced (each frame's outputs appended in arrival order), and once
/// the buffer is empty everything produced has been pulled.
pub proof fn lemma_pulled_in_order<T: Transformer>(v: StreamView<T>)
    requires
        v.wf(),
    ensures
        v.delivered.len() <= v.produced.len(),
        v.delivered == v.produced.take(v.delivered.len() as int),
        v.buffer == v.produced.skip(v.delivered.len() as int),
        v.buffer.len() == 0 ==> v.delivered == v.produced,
{
    assert(v.produced.take(v.delivered.len() as int) =~= v.delivered);
    assert(v.produced.skip(v.delivered.len() as int) =~= v.buffer);
    if v.buffer.len() == 0 {
        assert(v.produced =~= v.delivered);
    }
}

/// Handling a frame appends its outputs behind everything produced before it, in the order
/// the transformer produced them, and delivers nothing by itself.
pub proof fn lemma_frame_outputs_appended<T: Transformer>(
    prev: StreamView<T>,
    input: Option<Result<Frame<T::Input>, WsError>>,
    now: Timestamp,
    next: StreamView<T>,
)
    requires
        handled(prev, input, now, next),
    ensures
        next.produced.len() >= prev.produced.len(),
        next.produced.take(prev.produced.len() as int) == prev.produced,
        next.delivered == prev.delivered,
        prev.wf() ==> next.wf(),
{
    if !prev.terminated {
        match input {
            None => {},
            Some(item) => match parse_spec(item) {
                None => {},
                Some(Err(e)) => {
                    assert(next.produced.take(prev.produced.len() as int) =~= prev.produced);
                },
                Some(Ok(message)) => {
                    let n = prev.buffer.len();
                    let out = next.buffer.skip(n as int);
                    assert(next.produced.take(prev.produced.len() as int) =~= prev.produced);
                    if prev.wf() {
                        assert(next.buffer =~= prev.buffer + out);
                        assert(next.produced =~= next.delivered + next.buffer);
                    }
                },
            },
        }
    }
}

/// A ping or a pong frame changes nothing: it produces no item and leaves the transformer,
/// and with it every sequence, as it was.
pub proof fn lemma_ping_pong_skipped<T: Transformer>(
    prev: StreamView<T>,
    frame: Frame<T::Input>,
    now: Timestamp,
    next: StreamView<T>,
)
    requires
        frame is Ping || frame is Pong,
        handled(prev, Some(Ok(frame)), now, next),
    ensures
        next == prev,
{
}

/// A close frame produces exactly one [`SocketError::Terminated`] item, behind whatever was
/// already buffered, and ends the stream: no later transport item changes it, so once that
/// item has been pulled the stream yields nothing more.
pub proof fn lemma_close_terminates<T: Transformer>(
    prev: StreamView<T>,
    description: String,
    now: Timestamp,
    next: StreamView<T>,
)
    requires
        !prev.terminated,
        handled(prev, Some(Ok(Frame::Close(description))), now, next),
    ensures
        next.terminated,
        next.buffer == prev.buffer.push(Err(SocketError::Terminated(description))),
        next.produced == prev.produced.push(Err(SocketError::Terminated(description))),
        next.transformer == prev.transformer,
        forall|input: Option<Result<Frame<T::Input>, WsError>>, t: Timestamp, later: StreamView<T>|
            #[trigger] handled(next, input, t, later) ==> later == next,
{
}

/// A trade whose channel was never registered produces exactly one
/// [`SocketError::Unidentifiable`] item naming that channel; the registry is left as it was
/// and the stream goes on, so the next frame is handled as usual.
pub proof fn lemma_unmatched_trade_reported(
    prev: StreamView<BinanceFutures>,
    frame: Frame<BinanceMessage>,
    trade: BinanceTrade,
    now: Timestamp,
    next: StreamView<BinanceFutures>,
)
    requires
        prev.transformer.wf(),
        !prev.terminated,
        parse_spec(Ok::<Frame<BinanceMessage>, WsError>(frame)) == Some(
            Ok::<BinanceMessage, SocketError>(BinanceMessage::Trade(trade)),
        ),
        !prev.transformer@.contains_key(trade.spec_stream_id()),
        handled(prev, Some(Ok(frame)), now, next),
    ensures
        next.buffer.len() == prev.buffer.len() + 1,
        next.buffer.take(prev.buffer.len() as int) == prev.buffer,
        next.buffer.last() matches Err(SocketError::Unidentifiable(id)) && id.0@
            == trade.spec_stream_id(),
        !next.terminated,
        next.transformer.wf(),
        next.transformer@ == prev.transformer@,
{
    let n = prev.buffer.len();
    let out = next.buffer.skip(n as int);
    assert(out.len() == 1);
    assert(next.buffer.last() == out[0]);
}

/// Number of trades among `msgs` whose channel is `id`.
pub open spec fn trades_on(msgs: Seq<BinanceMessage>, id: Seq<char>) -> nat
    decreases msgs.len(),
{
    if msgs.len() == 0 {
        0
    } else {
        trades_on(msgs.drop_last(), id) + if msgs.last() matches BinanceMessage::Trade(t)
            && t.spec_stream_id() == id {
            1nat
        } else {
            0nat
        }
    }
}

/// Whether `states[i + 1]` and `outs[i]` are what transforming `msgs[i]` at `nows[i]` may give
/// from `states[i]`, for each message in turn.
pub open spec fn is_run(
    states: Seq<BinanceFutures>,
    msgs: Seq<BinanceMessage>,
    nows: Seq<Timestamp>,
    outs: Seq<Seq<Result<MarketEvent, SocketError>>>,
) -> bool {
    &&& states.len() == msgs.len() + 1
    &&& nows.len() == msgs.len()
    &&& outs.len() == msgs.len()
    &&& forall|i: int|
        0 <= i < msgs.len() ==> #[trigger] binance_transformed(
            states[i],
            msgs[i],
            nows[i],
            states[i + 1],
            outs[i],
        )
}

proof fn lemma_sequence_after(
    states: Seq<BinanceFutures>,
    msgs: Seq<BinanceMessage>,
    nows: Seq<Timestamp>,
    outs: Seq<Seq<Result<MarketEvent, SocketError>>>,
    id: Seq<char>,
    i: int,
)
    requires
        is_run(states, msgs, nows, outs),
        states[0].wf(),
        states[0]@.contains_key(id),
        states[0]@[id].sequence.0 + msgs.len() <= u64::MAX,
        0 <= i <= msgs.len(),
    ensures
        states[i].wf(),
        states[i]@.contains_key(id),
        states[i]@[id].sequence.0 == states[0]@[id].sequence.0 + trades_on(msgs.take(i), id),
        trades_on(msgs.take(i), id) <= i,
    decreases i,
{
    if i > 0 {
        lemma_sequence_after(states, msgs, nows, outs, id, i - 1);
        assert(msgs.take(i).drop_last() =~= msgs.take(i - 1));
        let j = i - 1;
        assert(binance_transformed(states[j], msgs[j], nows[j], states[j + 1], outs[j]));
    } else {
        assert(msgs.take(0) =~= Seq::<BinanceMessage>::empty());
    }
}

/// Events of one subscription carry consecutive sequences: over any run of messages, the
/// trade on channel `id` that comes after `k` earlier trades on `id` is stamped with the
/// channel's sequence at the start of the run plus `k` (so zero, one, two, ... from a fresh
/// registration). Stated for runs short enough that the sequence does not wrap.
pub proof fn lemma_sequences_consecutive(
    states: Seq<BinanceFutures>,
    msgs: Seq<BinanceMessage>,
    nows: Seq<Timestamp>,
    outs: Seq<Seq<Result<MarketEvent, SocketError>>>,
    id: Seq<char>,
)
    requires
        is_run(states, msgs, nows, outs),
        states[0].wf(),
        states[0]@.contains_key(id),
        states[0]@[id].sequence.0 + msgs.len() <= u64::MAX,
    ensures
        forall|i: int|
            0 <= i < msgs.len() && (#[trigger] msgs[i] matches BinanceMessage::Trade(t)
                && t.spec_stream_id() == id) ==> {
                &&& outs[i].len() == 1
                &&& outs[i][0] matches Ok(e) && e.sequence.0 == states[0]@[id].sequence.0
                    + trades_on(msgs.take(i), id)
            },
{
    assert forall|i: int|
        0 <= i < msgs.len() && (#[trigger] msgs[i] matches BinanceMessage::Trade(t)
            && t.spec_stream_id() == id) implies {
        &&& outs[i].len() == 1
        &&& outs[i][0] matches Ok(e) && e.sequence.0 == states[0]@[id].sequence.0 + trades_on(
            msgs.take(i),
            id,
        )
    } by {
        lemma_sequence_after(states, msgs, nows, outs, id, i);
        assert(binance_transformed(states[i], msgs[i], nows[i], states[i + 1], outs[i]));
    }
}

/// Sequencing starts from zero: every channel that registering subscriptions into an empty
/// registry produces has sequence zero, so the first event on it is stamped zero.
pub proof fn lemma_registered_channels_start_at_zero(subs: Seq<Subscription>, id: Seq<char>)
    requires
        register_all(Map::<Seq<char>, StreamMeta>::empty(), subs).contains_key(id),
    ensures
        register_all(Map::<Seq<char>, StreamMeta>::empty(), subs)[id].sequence == Sequence(0),
    decreases subs.len(),
{
    if subs.len() > 0 {
        let rest = register_all(Map::<Seq<char>, StreamMeta>::empty(), subs.drop_last());
        if rest.contains_key(id) {
            lemma_registered_channels_start_at_zero(subs.drop_last(), id);
        }
    }
}

/// At the pull interface, a frame's outputs come out in the order the transformer produced
/// them: on a live stream with nothing buffered, handling a frame whose message transforms
/// into `out` buffers exactly `out`, so the next pull answers its first item (or `Pending`
/// when `out` is empty, and the next frame is read), and leaves the rest in order.
pub proof fn lemma_frame_pulled_in_production_order<T: Transformer>(
    prev: StreamView<T>,
    frame: Frame<T::Input>,
    message: T::Input,
    now: Timestamp,
    next: StreamView<T>,
)
    requires
        !prev.terminated,
        prev.buffer.len() == 0,
        parse_spec(Ok::<Frame<T::Input>, WsError>(frame)) == Some(
            Ok::<T::Input, SocketError>(message),
        ),
        handled(prev, Some(Ok(frame)), now, next),
    ensures
        T::transformed(prev.transformer, message, now, next.transformer, next.buffer),
        !next.terminated,
        next.buffer.len() == 0 ==> pull_spec(next) == (next, StreamPoll::<
            Result<T::Output, SocketError>,
        >::Pending),
        next.buffer.len() > 0 ==> {
            &&& pull_spec(next).1 == StreamPoll::Ready(next.buffer[0])
            &&& pull_spec(next).0.buffer == next.buffer.drop_first()
        },
{
    assert(next.buffer.skip(0) =~= next.buffer);
}

/// At the pull interface, a close frame on a live stream with nothing buffered is pulled as
/// one [`SocketError::Terminated`] item; after it, whatever the transport still delivers,
/// every pull answers `Done`.
pub proof fn lemma_close_pulled_then_done<T: Transformer>(
    prev: StreamView<T>,
    description: String,
    now: Timestamp,
    next: StreamView<T>,
)
    requires
        !prev.terminated,
        prev.buffer.len() == 0,
        handled(prev, Some(Ok(Frame::Close(description))), now, next),
    ensures
        pull_spec(next).1 == StreamPoll::Ready(
            Err::<T::Output, SocketError>(SocketError::Terminated(description)),
        ),
        pull_spec(pull_spec(next).0).1 is Done,
        forall|input: Option<Result<Frame<T::Input>, WsError>>, t: Timestamp, later: StreamView<T>|
            #[trigger] handled(pull_spec(next).0, input, t, later) ==> pull_spec(later).1 is Done,
{
    let after = pull_spec(next).0;
    assert(after.buffer =~= Seq::<Result<T::Output, SocketError>>::empty());
}

/// At the pull interface, on a live stream with nothing buffered, a trade on a channel that
/// was never registered is pulled as one [`SocketError::Unidentifiable`] naming its channel,
/// and a trade on a registered channel fed next is pulled as its event, stamped with that
/// channel's current sequence: the pipeline neither stops nor stalls.
pub proof fn lemma_unmatched_then_matched_pulled(
    prev: StreamView<BinanceFutures>,
    f1: Frame<BinanceMessage>,
    t1: BinanceTrade,
    now1: Timestamp,
    mid: StreamView<BinanceFutures>,
    f2: Frame<BinanceMessage>,
    t2: BinanceTrade,
    now2: Timestamp,
    next: StreamView<BinanceFutures>,
)
    requires
        prev.transformer.wf(),
        !prev.terminated,
        prev.buffer.len() == 0,
        parse_spec(Ok::<Frame<BinanceMessage>, WsError>(f1)) == Some(
            Ok::<BinanceMessage, SocketError>(BinanceMessage::Trade(t1)),
        ),
        parse_spec(Ok::<Frame<BinanceMessage>, WsError>(f2)) == Some(
            Ok::<BinanceMessage, SocketError>(BinanceMessage::Trade(t2)),
        ),
        !prev.transformer@.contains_key(t1.spec_stream_id()),
        prev.transformer@.contains_key(t2.spec_stream_id()),
        handled(prev, Some(Ok(f1)), now1, mid),
        handled(pull_spec(mid).0, Some(Ok(f2)), now2, next),
    ensures
        pull_spec(mid).1 matches StreamPoll::Ready(Err(SocketError::Unidentifiable(id))) && id.0@
            == t1.spec_stream_id(),
        pull_spec(next).1 matches StreamPoll::Ready(Ok(e)) && e.sequence
            == prev.transformer@[t2.spec_stream_id()].sequence,
{
    lemma_unmatched_trade_reported(prev, f1, t1, now1, mid);
    let after = pull_spec(mid).0;
    assert(after.buffer.len() == 0);
    assert(next.buffer.skip(0) =~= next.buffer);
}

/// At the pull interface, two trades on one registered channel, fed to a live stream with
/// nothing buffered and each pulled before the next is fed, come out stamped `n` and `n + 1`,
/// where `n` is the channel's sequence before them (below `u64::MAX`).
pub proof fn lemma_consecutive_pulls_on_a_channel(
    prev: StreamView<BinanceFutures>,
    f1: Frame<BinanceMessage>,
    t1: BinanceTrade,
    now1: Timestamp,
    mid: StreamView<BinanceFutures>,
    f2: Frame<BinanceMessage>,
    t2: BinanceTrade,
    now2: Timestamp,
    next: StreamView<BinanceFutures>,
)
    requires
        prev.transformer.wf(),
        !prev.terminated,
        prev.buffer.len() == 0,
        parse_spec(Ok::<Frame<BinanceMessage>, WsError>(f1)) == Some(
            Ok::<BinanceMessage, SocketError>(BinanceMessage::Trade(t1)),
        ),
        parse_spec(Ok::<Frame<BinanceMessage>, WsError>(f2)) == Some(
            Ok::<BinanceMessage, SocketError>(BinanceMessage::Trade(t2)),
        ),
        t1.spec_stream_id() == t2.spec_stream_id(),
        prev.transformer@.contains_key(t1.spec_stream_id()),
        prev.transformer@[t1.spec_stream_id()].sequence.0 < u64::MAX,
        handled(prev, Some(Ok(f1)), now1, mid),
        handled(pull_spec(mid).0, Some(Ok(f2)), now2, next),
    ensures
        pull_spec(mid).1 matches StreamPoll::Ready(Ok(e1)) && e1.sequence
            == prev.transformer@[t1.spec_stream_id()].sequence,
        pull_spec(next).1 matches StreamPoll::Ready(Ok(e2)) && e2.sequence.0
            == prev.transformer@[t1.spec_stream_id()].sequence.0 + 1,
{
    assert(mid.buffer.skip(0) =~= mid.buffer);
    let after = pull_spec(mid).0;
    assert(after.buffer.len() == 0);
    assert(next.buffer.skip(0) =~= next.buffer);
}

} // verus!
