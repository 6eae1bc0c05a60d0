use futures::Async;
use ipc_channel::{IpcError, TryRecvError};
use ipc_future::IpcFuture;

fn waiting() -> IpcFuture<u32> {
    let (future, _data) = IpcFuture::new().unwrap();
    future
}

#[test]
fn new_future_is_waiting() {
    let (future, _data) = IpcFuture::<u32>::new().unwrap();
    assert!(matches!(future, IpcFuture::Waiting(_)));
    assert!(future.as_ref().is_none());
}

#[test]
fn received_value_is_stored() {
    let mut future = waiting();
    let checked = future.record_receive(Ok(7));
    assert!(matches!(checked, Ok(Async::Ready(()))));
    assert!(matches!(future, IpcFuture::Ready(7)));
    assert_eq!(future.as_ref(), Some(&7));
}

#[test]
fn empty_channel_keeps_waiting() {
    let mut future = waiting();
    let checked = future.record_receive(Err(TryRecvError::Empty));
    assert!(matches!(checked, Ok(Async::NotReady)));
    assert!(matches!(future, IpcFuture::Waiting(_)));
    assert!(future.as_ref().is_none());
}

#[test]
fn transport_error_is_passed_on() {
    let mut future = waiting();
    let checked = future.record_receive(Err(TryRecvError::IpcError(IpcError::Disconnected)));
    assert!(matches!(checked, Err(IpcError::Disconnected)));
    assert!(matches!(future, IpcFuture::Waiting(_)));
}

#[test]
fn stored_value_is_extracted_once() {
    let mut future = waiting();
    future.record_receive(Ok(41)).unwrap();
    assert_eq!(future.poll().unwrap(), Async::Ready(41));
    assert!(matches!(future, IpcFuture::Empty));
    assert!(future.as_ref().is_none());
}

#[test]
fn check_on_ready_and_spent_reports_ready() {
    let mut future = waiting();
    future.record_receive(Ok(3)).unwrap();
    assert!(matches!(future.poll_impl(), Ok(Async::Ready(()))));
    assert_eq!(future.as_ref(), Some(&3));
    future.poll().unwrap();
    assert!(matches!(future.poll_impl(), Ok(Async::Ready(()))));
    assert!(matches!(future, IpcFuture::Empty));
}

#[test]
fn not_ready_before_provide() {
    let (mut future, data) = IpcFuture::<u32>::new().unwrap();
    for _ in 0..5 {
        assert_eq!(future.poll().unwrap(), Async::NotReady);
        assert!(matches!(future.poll_impl(), Ok(Async::NotReady)));
        assert!(future.as_ref().is_none());
    }
    data.provide(9).unwrap();
    assert_eq!(future.poll().unwrap(), Async::Ready(9));
}

#[test]
fn check_stores_provided_value() {
    let (mut future, data) = IpcFuture::<u32>::new().unwrap();
    data.provide(12).unwrap();
    assert!(matches!(future.poll_impl(), Ok(Async::Ready(()))));
    for _ in 0..3 {
        assert_eq!(future.as_ref(), Some(&12));
    }
    assert!(matches!(future, IpcFuture::Ready(12)));
    assert_eq!(future.poll().unwrap(), Async::Ready(12));
}

#[test]
fn value_round_trips_exactly() {
    let sent = vec!["alpha".to_string(), String::new(), "\u{e9}t\u{e9}".to_string()];
    let (mut future, data) = IpcFuture::<Vec<String>>::new().unwrap();
    data.provide(sent.clone()).unwrap();
    assert_eq!(future.poll().unwrap(), Async::Ready(sent));
}

#[test]
fn provide_then_poll_gives_two() {
    let (mut future, data) = IpcFuture::new().unwrap();
    data.provide(2u8).unwrap();
    assert_eq!(future.poll().unwrap(), Async::Ready(2));
    assert!(matches!(future, IpcFuture::Empty));
}

#[test]
fn dropped_handle_reports_error_every_time() {
    let (mut future, data) = IpcFuture::<u8>::new().unwrap();
    drop(data);
    for _ in 0..3 {
        assert!(future.poll().is_err());
        assert!(matches!(future, IpcFuture::Waiting(_)));
    }
    assert!(future.poll_impl().is_err());
}

#[test]
fn embedded_sender_is_delivered_and_usable() {
    let (mut outer, outer_data) = IpcFuture::<ipc_channel::ipc::IpcSender<u8>>::new().unwrap();
    let (sender, receiver) = ipc_channel::ipc::channel::<u8>().unwrap();
    outer_data.provide(sender).unwrap();
    let delivered = match outer.poll().unwrap() {
        Async::Ready(s) => s,
        Async::NotReady => panic!("the sender was not delivered"),
    };
    delivered.send(77).unwrap();
    assert_eq!(receiver.recv().unwrap(), 77);
}

#[test]
fn provide_after_future_dropped_is_not_disconnected() {
    let (future, data) = IpcFuture::<u8>::new().unwrap();
    drop(future);
    if let Err(e) = data.provide(4) {
        assert!(!matches!(e, IpcError::Disconnected));
    }
}
