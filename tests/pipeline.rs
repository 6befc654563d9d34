use barter_integration::binance::{BinanceFutures, BinanceMessage, BinanceSubscribed, BinanceTrade};
use barter_integration::error::SocketError;
use barter_integration::market::{
    Decimal, Direction, MarketData, MarketEvent, Sequence, StreamId, StreamIdentifier, StreamMeta,
    Subscription,
};
use barter_integration::model::{Instrument, InstrumentKind};
use barter_integration::protocol::{
    process_binary, process_close_frame, process_ping, process_pong, process_text, Frame,
    WebSocketParser,
};
use barter_integration::stream::{ExchangeStream, StreamPoll, Transformer};
use barter_integration::time::Timestamp;
use tokio_tungstenite::tungstenite::Error as WsError;

fn json_error(text: &str) -> serde_json::Error {
    serde_json::from_str::<serde_json::Value>(text).unwrap_err()
}

fn trade(symbol: &str, id: u64, buyer_is_maker: bool) -> BinanceTrade {
    BinanceTrade {
        event_type: "aggTrade".to_string(),
        symbol: symbol.to_string(),
        trade_ts: 1_649_324_825_173,
        id,
        price: Decimal { mantissa: 4_532_150, scale: 2 },
        quantity: Decimal { mantissa: 15, scale: 3 },
        buyer_is_maker,
    }
}

fn trade_frame(symbol: &str, id: u64) -> Frame<BinanceMessage> {
    Frame::Text {
        payload: format!("{{\"e\":\"aggTrade\",\"s\":\"{symbol}\",\"a\":{id}}}"),
        message: Ok(BinanceMessage::Trade(trade(symbol, id, false))),
    }
}

fn btc_usdt_stream() -> ExchangeStream<BinanceFutures> {
    let mut transformer = BinanceFutures::new();
    let subscriptions =
        vec![Subscription::Trades(Instrument::new("btc", "usdt", InstrumentKind::Spot))];
    transformer.generate_subscriptions(&subscriptions).unwrap();
    ExchangeStream::new(transformer)
}

fn pull_event(stream: &mut ExchangeStream<BinanceFutures>) -> MarketEvent {
    match stream.poll_next() {
        StreamPoll::Ready(Ok(event)) => event,
        other => panic!("expected an event, got {other:?}"),
    }
}

fn pull_error(stream: &mut ExchangeStream<BinanceFutures>) -> SocketError {
    match stream.poll_next() {
        StreamPoll::Ready(Err(error)) => error,
        other => panic!("expected an error item, got {other:?}"),
    }
}

fn at(ms: u64) -> Timestamp {
    Timestamp { epoch_ms: ms }
}

#[test]
fn parser_skips_ping_and_pong() {
    assert!(process_ping::<BinanceMessage>(vec![1, 2]).is_none());
    assert!(process_pong::<BinanceMessage>(vec![]).is_none());
    assert!(WebSocketParser::parse::<u8>(Ok(Frame::Ping(vec![9]))).is_none());
    assert!(WebSocketParser::parse::<u8>(Ok(Frame::Pong(vec![9]))).is_none());
}

#[test]
fn parser_reports_close_as_terminated() {
    match process_close_frame::<u8>("code 1000".to_string()) {
        Some(Err(SocketError::Terminated(text))) => assert_eq!(text, "code 1000"),
        other => panic!("unexpected {other:?}"),
    }
    assert!(matches!(
        WebSocketParser::parse::<u8>(Ok(Frame::Close("None".to_string()))),
        Some(Err(SocketError::Terminated(_)))
    ));
}

#[test]
fn parser_passes_messages_and_reports_bad_payloads() {
    assert!(matches!(process_text("7".to_string(), Ok(7u8)), Some(Ok(7))));
    match process_text::<u8>("{oops".to_string(), Err(json_error("{oops"))) {
        Some(Err(SocketError::Deserialise { payload, .. })) => assert_eq!(payload, "{oops"),
        other => panic!("unexpected {other:?}"),
    }
    assert!(matches!(process_binary(vec![b'7'], Ok(7u8)), Some(Ok(7))));
    match process_binary::<u8>(vec![0xff, 0x00], Err(json_error("\u{0}"))) {
        Some(Err(SocketError::DeserialiseBinary { payload, .. })) => {
            assert_eq!(payload, vec![0xff, 0x00])
        }
        other => panic!("unexpected {other:?}"),
    }
}

#[test]
fn parser_passes_transport_errors_on() {
    assert!(matches!(
        WebSocketParser::parse::<u8>(Err(WsError::ConnectionClosed)),
        Some(Err(SocketError::WebSocket(WsError::ConnectionClosed)))
    ));
}

#[test]
fn binance_channel_names() {
    let subscription = Subscription::Trades(Instrument::new("BTC", "USDT", InstrumentKind::Spot));
    assert_eq!(BinanceFutures::get_stream_id(&subscription), StreamId("btcusdt@aggTrade".to_string()));
    assert_eq!(trade("BTCUSDT", 1, false).to_stream_id(), StreamId("btcusdt@aggTrade".to_string()));
}

#[test]
fn binance_subscription_request() {
    let mut transformer = BinanceFutures::new();
    let subscriptions = vec![
        Subscription::Trades(Instrument::new("btc", "usdt", InstrumentKind::FuturePerpetual)),
        Subscription::Trades(Instrument::new("eth", "usdt", InstrumentKind::FuturePerpetual)),
    ];
    let requests = transformer.generate_subscriptions(&subscriptions).unwrap();
    assert_eq!(
        requests,
        vec![r#"{"method":"SUBSCRIBE","params":["btcusdt@aggTrade","ethusdt@aggTrade"],"id":1}"#
            .to_string()]
    );
}

#[test]
fn binance_stream_meta_advances_once_per_read() {
    let mut transformer = BinanceFutures::new();
    let instrument = Instrument::new("btc", "usdt", InstrumentKind::Spot);
    transformer.generate_subscriptions(&[Subscription::Trades(instrument.clone())]).unwrap();
    let id = StreamId("btcusdt@aggTrade".to_string());
    let (first_instrument, first) = transformer.get_stream_meta(&id).unwrap();
    let (_, second) = transformer.get_stream_meta(&id).unwrap();
    assert_eq!(first_instrument, instrument);
    assert_eq!((first, second), (Sequence(0), Sequence(1)));
    match transformer.get_stream_meta(&StreamId("ethusdt@aggTrade".to_string())) {
        Err(SocketError::Unidentifiable(id)) => assert_eq!(id.0, "ethusdt@aggTrade"),
        other => panic!("unexpected {other:?}"),
    }
}

#[test]
fn binance_trade_becomes_a_normalised_event() {
    let mut transformer = BinanceFutures::new();
    transformer
        .generate_subscriptions(&[Subscription::Trades(Instrument::new("btc", "usdt", InstrumentKind::FuturePerpetual))])
        .unwrap();
    let out = transformer.transform(BinanceMessage::Trade(trade("BTCUSDT", 123456, true)), at(99));
    assert_eq!(out.len(), 1);
    let event = out.into_iter().next().unwrap().unwrap();
    assert_eq!(event.sequence, Sequence(0));
    assert_eq!(event.timestamp, at(99));
    match event.data {
        MarketData::Trade(t) => {
            assert_eq!(t.id, "123456");
            assert_eq!(t.exchange, "binance_futures");
            assert_eq!(t.instrument, Instrument::new("btc", "usdt", InstrumentKind::FuturePerpetual));
            assert_eq!(t.received_timestamp, at(99));
            assert_eq!(t.exchange_timestamp, at(1_649_324_825_173));
            assert_eq!(t.price, Decimal { mantissa: 4_532_150, scale: 2 });
            assert_eq!(t.quantity, Decimal { mantissa: 15, scale: 3 });
            assert_eq!(t.direction, Direction::Short);
        }
        other => panic!("unexpected {other:?}"),
    }
    let out = transformer.transform(BinanceMessage::Trade(trade("BTCUSDT", 0, false)), at(100));
    match &out[0] {
        Ok(MarketEvent { sequence, data: MarketData::Trade(t), .. }) => {
            assert_eq!(*sequence, Sequence(1));
            assert_eq!(t.id, "0");
            assert_eq!(t.direction, Direction::Long);
        }
        other => panic!("unexpected {other:?}"),
    }
}

#[test]
fn binance_subscription_responses() {
    let mut transformer = BinanceFutures::new();
    let ok = BinanceMessage::Subscribed(BinanceSubscribed { result: None, id: 1 });
    assert!(transformer.transform(ok, at(1)).is_empty());
    let failed = BinanceMessage::Subscribed(BinanceSubscribed { result: Some(vec![]), id: 1 });
    let out = transformer.transform(failed, at(2));
    assert_eq!(out.len(), 1);
    assert!(matches!(out[0], Err(SocketError::Subscribe(_))));
}

#[test]
fn three_trades_are_sequenced_from_zero() {
    let mut stream = btc_usdt_stream();
    assert!(matches!(stream.poll_next(), StreamPoll::Pending));
    for id in 0..3u64 {
        stream.handle_input_at(Some(Ok(trade_frame("BTCUSDT", id))), at(10 + id));
    }
    for expected in 0..3u64 {
        let event = pull_event(&mut stream);
        assert_eq!(event.sequence, Sequence(expected));
        assert_eq!(event.timestamp, at(10 + expected));
    }
    assert!(matches!(stream.poll_next(), StreamPoll::Pending));
}

#[test]
fn sequences_are_counted_per_subscription() {
    let mut transformer = BinanceFutures::new();
    transformer
        .generate_subscriptions(&[
            Subscription::Trades(Instrument::new("btc", "usdt", InstrumentKind::Spot)),
            Subscription::Trades(Instrument::new("eth", "usdt", InstrumentKind::Spot)),
        ])
        .unwrap();
    let mut stream = ExchangeStream::new(transformer);
    for (symbol, id) in [("BTCUSDT", 1), ("ETHUSDT", 2), ("BTCUSDT", 3), ("ETHUSDT", 4), ("ETHUSDT", 5)] {
        stream.handle_input(Some(Ok(trade_frame(symbol, id))));
    }
    let sequences: Vec<u64> = (0..5).map(|_| pull_event(&mut stream).sequence.0).collect();
    assert_eq!(sequences, vec![0, 0, 1, 1, 2]);
}

#[test]
fn malformed_json_is_reported_and_the_stream_goes_on() {
    let mut stream = btc_usdt_stream();
    let payload = "{\"e\": \"aggTrade\", ".to_string();
    stream.handle_input_at(
        Some(Ok(Frame::Text { payload: payload.clone(), message: Err(json_error(&payload)) })),
        at(1),
    );
    match pull_error(&mut stream) {
        SocketError::Deserialise { payload: carried, .. } => assert_eq!(carried, payload),
        other => panic!("unexpected {other:?}"),
    }
    assert!(!stream.is_terminated());
    stream.handle_input_at(Some(Ok(trade_frame("BTCUSDT", 5))), at(2));
    assert_eq!(pull_event(&mut stream).sequence, Sequence(0));
}

#[test]
fn failed_subscription_yields_one_error_and_no_event() {
    let mut stream = btc_usdt_stream();
    let frame = Frame::Text {
        payload: "{\"result\":[],\"id\":1}".to_string(),
        message: Ok(BinanceMessage::Subscribed(BinanceSubscribed { result: Some(vec![]), id: 1 })),
    };
    stream.handle_input_at(Some(Ok(frame)), at(1));
    assert!(matches!(pull_error(&mut stream), SocketError::Subscribe(_)));
    assert!(matches!(stream.poll_next(), StreamPoll::Pending));
}

#[test]
fn successful_subscription_yields_nothing() {
    let mut stream = btc_usdt_stream();
    let frame = Frame::Text {
        payload: "{\"result\":null,\"id\":1}".to_string(),
        message: Ok(BinanceMessage::Subscribed(BinanceSubscribed { result: None, id: 1 })),
    };
    stream.handle_input_at(Some(Ok(frame)), at(1));
    assert!(matches!(stream.poll_next(), StreamPoll::Pending));
}

#[test]
fn ping_and_pong_are_invisible() {
    let mut stream = btc_usdt_stream();
    stream.handle_input_at(Some(Ok(trade_frame("BTCUSDT", 1))), at(1));
    stream.handle_input_at(Some(Ok(Frame::Ping(vec![1]))), at(2));
    stream.handle_input_at(Some(Ok(Frame::Pong(vec![2]))), at(3));
    stream.handle_input_at(Some(Ok(trade_frame("BTCUSDT", 2))), at(4));
    assert_eq!(pull_event(&mut stream).sequence, Sequence(0));
    assert_eq!(pull_event(&mut stream).sequence, Sequence(1));
    assert!(matches!(stream.poll_next(), StreamPoll::Pending));
}

#[test]
fn unmatched_trade_is_reported_and_the_next_frame_handled() {
    let mut stream = btc_usdt_stream();
    stream.handle_input_at(Some(Ok(trade_frame("XRPUSDT", 1))), at(1));
    stream.handle_input_at(Some(Ok(trade_frame("BTCUSDT", 2))), at(2));
    match pull_error(&mut stream) {
        SocketError::Unidentifiable(id) => assert_eq!(id.0, "xrpusdt@aggTrade"),
        other => panic!("unexpected {other:?}"),
    }
    assert_eq!(pull_event(&mut stream).sequence, Sequence(0));
}

#[test]
fn close_frame_ends_the_stream_after_one_error() {
    let mut stream = btc_usdt_stream();
    stream.handle_input_at(Some(Ok(trade_frame("BTCUSDT", 1))), at(1));
    stream.handle_input_at(Some(Ok(Frame::Close("Some(CloseFrame { code: Normal })".to_string()))), at(2));
    stream.handle_input_at(Some(Ok(trade_frame("BTCUSDT", 2))), at(3));
    assert!(stream.is_terminated());
    assert_eq!(pull_event(&mut stream).sequence, Sequence(0));
    match pull_error(&mut stream) {
        SocketError::Terminated(text) => assert_eq!(text, "Some(CloseFrame { code: Normal })"),
        other => panic!("unexpected {other:?}"),
    }
    assert!(matches!(stream.poll_next(), StreamPoll::Done));
    assert!(matches!(stream.poll_next(), StreamPoll::Done));
}

#[test]
fn transport_error_is_reported_then_the_stream_ends() {
    let mut stream = btc_usdt_stream();
    stream.handle_input_at(Some(Err(WsError::AlreadyClosed)), at(1));
    assert!(matches!(pull_error(&mut stream), SocketError::WebSocket(WsError::AlreadyClosed)));
    assert!(matches!(stream.poll_next(), StreamPoll::Done));
}

#[test]
fn exhausted_transport_ends_the_stream() {
    let mut stream = btc_usdt_stream();
    stream.handle_input_at(Some(Ok(trade_frame("BTCUSDT", 1))), at(1));
    stream.handle_input_at(None, at(2));
    assert_eq!(pull_event(&mut stream).sequence, Sequence(0));
    assert!(matches!(stream.poll_next(), StreamPoll::Done));
}

#[test]
fn pulled_items_follow_frame_order() {
    let mut stream = btc_usdt_stream();
    stream.handle_input_at(Some(Ok(trade_frame("BTCUSDT", 1))), at(1));
    stream.handle_input_at(
        Some(Ok(Frame::Binary { payload: vec![b'x'], message: Err(json_error("x")) })),
        at(2),
    );
    stream.handle_input_at(Some(Ok(trade_frame("ETHUSDT", 3))), at(3));
    stream.handle_input_at(Some(Ok(trade_frame("BTCUSDT", 4))), at(4));
    assert_eq!(pull_event(&mut stream).timestamp, at(1));
    assert!(matches!(pull_error(&mut stream), SocketError::DeserialiseBinary { .. }));
    assert!(matches!(pull_error(&mut stream), SocketError::Unidentifiable(_)));
    let last = pull_event(&mut stream);
    assert_eq!((last.sequence, last.timestamp), (Sequence(1), at(4)));
    assert!(matches!(stream.poll_next(), StreamPoll::Pending));
}

#[test]
fn binance_subscription_request_for_no_channels() {
    let mut transformer = BinanceFutures::new();
    let requests = transformer.generate_subscriptions(&[]).unwrap();
    assert_eq!(requests, vec![r#"{"method":"SUBSCRIBE","params":[],"id":1}"#.to_string()]);
}

#[test]
fn sequence_wraps_after_its_largest_value() {
    let mut transformer = BinanceFutures::new();
    let subscription = Subscription::Trades(Instrument::new("btc", "usdt", InstrumentKind::Spot));
    let id = StreamId("btcusdt@aggTrade".to_string());
    transformer.register(id.clone(), StreamMeta { sequence: Sequence(u64::MAX), subscription });
    assert_eq!(transformer.get_stream_meta(&id).unwrap().1, Sequence(u64::MAX));
    assert_eq!(transformer.get_stream_meta(&id).unwrap().1, Sequence(0));
}

#[test]
fn registering_a_channel_again_restarts_it() {
    let mut transformer = BinanceFutures::new();
    let subscription = Subscription::Trades(Instrument::new("btc", "usdt", InstrumentKind::Spot));
    transformer.generate_subscriptions(&[subscription.clone()]).unwrap();
    let id = StreamId("btcusdt@aggTrade".to_string());
    transformer.get_stream_meta(&id).unwrap();
    transformer.generate_subscriptions(&[subscription]).unwrap();
    assert_eq!(transformer.get_stream_meta(&id).unwrap().1, Sequence(0));
}

#[test]
fn trade_channel_scenario_yields_sequences_zero_one_two() {
    let mut transformer = BinanceFutures::new();
    let subscription = Subscription::Trades(Instrument::new("btc", "usdt", InstrumentKind::Spot));
    transformer.register(StreamId("btcusdt@trade".to_string()), StreamMeta::new(subscription));
    let mut stream = ExchangeStream::new(transformer);
    for id in 0..3u64 {
        let mut message = trade("BTCUSDT", id, false);
        message.event_type = "trade".to_string();
        assert_eq!(message.to_stream_id(), StreamId("btcusdt@trade".to_string()));
        let frame = Frame::Text { payload: String::new(), message: Ok(BinanceMessage::Trade(message)) };
        stream.handle_input_at(Some(Ok(frame)), at(id));
    }
    let sequences: Vec<Sequence> = (0..3).map(|_| pull_event(&mut stream).sequence).collect();
    assert_eq!(sequences, vec![Sequence(0), Sequence(1), Sequence(2)]);
    assert!(matches!(stream.poll_next(), StreamPoll::Pending));
}
