use std::cell::Cell;
use std::rc::Rc;
use std::sync::mpsc;

use net_relay::EchoWorker;
use net_relay::NetError;
use net_relay::NetHandler;
use net_relay::NetReceive;
use net_relay::NetResult;
use net_relay::NetSend;
use net_relay::NetSendRelay;
use net_relay::NoopWorker;
use net_relay::Protocol;

/// A handler that accepts every report and does nothing, counting how often
/// it was invoked.
struct CountingHandler {
    calls: Rc<Cell<u32>>,
}

impl NetHandler for CountingHandler {
    fn handle(&mut self, _report: NetResult<Protocol>) -> NetResult<()> {
        self.calls.set(self.calls.get() + 1);
        Ok(())
    }
}

/// A handler that forwards every delivered message into a channel, so a test
/// can observe exactly what a worker reported.
struct ChannelHandler {
    sender: mpsc::Sender<Protocol>,
}

impl NetHandler for ChannelHandler {
    fn handle(&mut self, report: NetResult<Protocol>) -> NetResult<()> {
        match report {
            Ok(message) => match self.sender.send(message) {
                Ok(()) => Ok(()),
                Err(_) => Err(NetError::from_str("channel closed")),
            },
            Err(e) => Err(e),
        }
    }
}

/// A handler that refuses every report.
struct RefusingHandler;

impl NetHandler for RefusingHandler {
    fn handle(&mut self, _report: NetResult<Protocol>) -> NetResult<()> {
        Err(NetError::from_str("refused"))
    }
}

/// A worker whose teardown always fails.
struct FailStopWorker;

impl NetReceive for FailStopWorker {
    fn tick(&mut self) -> NetResult<bool> {
        Ok(false)
    }

    fn receive(&mut self, _data: Protocol) -> NetResult<()> {
        Ok(())
    }

    fn stop(self) -> NetResult<()> {
        Err(NetError::from_str("stop failed"))
    }
}

#[test]
fn it_can_defaults() {
    let calls = Rc::new(Cell::new(0));
    let handler = CountingHandler { calls: calls.clone() };

    let mut con = NetSendRelay::new(handler, |_h: CountingHandler| Ok(NoopWorker), None::<fn()>)
        .unwrap();

    con.send(Protocol::from_str("test")).unwrap();
    con.tick().unwrap();
    con.stop().unwrap();

    assert_eq!(0, calls.get());
}

#[test]
fn it_invokes_connection_relay() {
    let (sender, receiver) = mpsc::channel();

    let mut con = NetSendRelay::new(
        ChannelHandler { sender },
        |h: ChannelHandler| Ok(EchoWorker::new(h, Protocol::from_str("tick"))),
        None::<fn()>,
    )
    .unwrap();

    con.send(Protocol::from_str("test")).unwrap();

    let res = receiver.recv().unwrap();

    assert_eq!("test".to_string(), String::from(res.as_json_string()));

    con.stop().unwrap();
}

#[test]
fn it_can_tick() {
    let (sender, receiver) = mpsc::channel();

    let mut con = NetSendRelay::new(
        ChannelHandler { sender },
        |h: ChannelHandler| Ok(EchoWorker::new(h, Protocol::from_str("tick"))),
        None::<fn()>,
    )
    .unwrap();

    con.tick().unwrap();

    let res = receiver.recv().unwrap();

    assert_eq!("tick".to_string(), String::from(res.as_json_string()));

    con.stop().unwrap();
}

#[test]
fn send_delivers_messages_in_call_order() {
    let (sender, receiver) = mpsc::channel();

    let mut con = NetSendRelay::new(
        ChannelHandler { sender },
        |h: ChannelHandler| Ok(EchoWorker::new(h, Protocol::from_str("tick"))),
        None::<fn()>,
    )
    .unwrap();

    con.send(Protocol::from_str("first")).unwrap();
    con.send(Protocol::from_str("second")).unwrap();

    assert_eq!("first", receiver.recv().unwrap().as_json_string());
    assert_eq!("second", receiver.recv().unwrap().as_json_string());

    con.stop().unwrap();
}

#[test]
fn each_tick_emits_one_sentinel() {
    let (sender, receiver) = mpsc::channel();

    let mut con = NetSendRelay::new(
        ChannelHandler { sender },
        |h: ChannelHandler| Ok(EchoWorker::new(h, Protocol::from_str("tick"))),
        None::<fn()>,
    )
    .unwrap();

    assert!(con.tick().unwrap());
    assert!(con.tick().unwrap());
    con.stop().unwrap();

    assert_eq!("tick", receiver.recv().unwrap().as_json_string());
    assert_eq!("tick", receiver.recv().unwrap().as_json_string());
    assert!(receiver.recv().is_err());
}

#[test]
fn shutdown_fires_exactly_once_after_successful_stop() {
    let fired = Rc::new(Cell::new(0));
    let observer = fired.clone();
    let calls = Rc::new(Cell::new(0));

    let con = NetSendRelay::new(
        CountingHandler { calls },
        |_h: CountingHandler| Ok(NoopWorker),
        Some(move || observer.set(observer.get() + 1)),
    )
    .unwrap();

    assert_eq!(0, fired.get());
    con.stop().unwrap();
    assert_eq!(1, fired.get());
}

#[test]
fn failing_worker_stop_suppresses_shutdown() {
    let fired = Rc::new(Cell::new(false));
    let observer = fired.clone();
    let calls = Rc::new(Cell::new(0));

    let con = NetSendRelay::new(
        CountingHandler { calls },
        |_h: CountingHandler| Ok(FailStopWorker),
        Some(move || observer.set(true)),
    )
    .unwrap();

    let err = con.stop().unwrap_err();
    assert_eq!("stop failed", err.message());
    assert!(!fired.get());
}

#[test]
fn failing_factory_prevents_activity() {
    let calls = Rc::new(Cell::new(0));

    let relay = NetSendRelay::<NoopWorker, fn()>::new(
        CountingHandler { calls: calls.clone() },
        |_h: CountingHandler| Err(NetError::from_str("no worker")),
        None,
    );

    let err = relay.err().unwrap();
    assert_eq!("no worker", err.message());
    assert_eq!(0, calls.get());
}

#[test]
fn send_failure_is_propagated_unchanged() {
    let mut con = NetSendRelay::new(
        RefusingHandler,
        |h: RefusingHandler| Ok(EchoWorker::new(h, Protocol::from_str("tick"))),
        None::<fn()>,
    )
    .unwrap();

    let err = con.send(Protocol::from_str("test")).unwrap_err();
    assert_eq!("refused", err.message());

    con.stop().unwrap();
}

#[test]
fn tick_failure_is_propagated_unchanged() {
    let mut con = NetSendRelay::new(
        RefusingHandler,
        |h: RefusingHandler| Ok(EchoWorker::new(h, Protocol::from_str("tick"))),
        None::<fn()>,
    )
    .unwrap();

    let err = con.tick().unwrap_err();
    assert_eq!("refused", err.message());

    con.stop().unwrap();
}

#[test]
fn protocol_keeps_its_payload() {
    let message = Protocol::from_str("payload");
    assert_eq!("payload", message.as_json_string());

    let copy = message.clone();
    assert_eq!("payload", copy.as_json_string());
    assert_eq!("payload", message.as_json_string());
}

#[test]
fn error_keeps_its_description() {
    let err = NetError::from_str("resource unavailable");
    assert_eq!("resource unavailable", err.message());

    let copy = err.clone();
    assert_eq!("resource unavailable", copy.message());
}

#[test]
fn echo_worker_forwards_directly() {
    let (sender, receiver) = mpsc::channel();
    let mut worker = EchoWorker::new(ChannelHandler { sender }, Protocol::from_str("beat"));

    assert!(worker.tick().unwrap());
    worker.receive(Protocol::from_str("inbound")).unwrap();
    worker.stop().unwrap();

    assert_eq!("beat", receiver.recv().unwrap().as_json_string());
    assert_eq!("inbound", receiver.recv().unwrap().as_json_string());
}
