use mcp_client::mpsc;
use mcp_client::mpsc::TryRecvError;
use mcp_client::oneshot;

#[test]
fn queue_hands_values_over_in_order() {
    let (tx, mut rx) = mpsc::channel::<String>(10);
    assert_eq!(rx.try_recv(), Err(TryRecvError::Empty));
    assert_eq!(tx.send("a".to_string()), Ok(()));
    assert_eq!(tx.send("b".to_string()), Ok(()));
    assert_eq!(rx.try_recv(), Ok("a".to_string()));
    assert_eq!(rx.try_recv(), Ok("b".to_string()));
    drop(tx);
    assert_eq!(rx.try_recv(), Err(TryRecvError::Disconnected));
}

#[test]
fn queue_gives_the_value_back_without_a_receiver() {
    let (tx, rx) = mpsc::channel::<u32>(1);
    drop(rx);
    assert_eq!(tx.send(7), Err(7));
}

#[test]
fn slot_hands_one_value_over() {
    let (tx, mut rx) = oneshot::channel::<u32>();
    assert_eq!(rx.try_recv(), Err(TryRecvError::Empty));
    assert_eq!(tx.send(5), Ok(()));
    assert_eq!(rx.try_recv(), Ok(5));
    assert_eq!(rx.try_recv(), Err(TryRecvError::Disconnected));
}

#[test]
fn slot_gives_the_value_back_without_a_waiter() {
    let (tx, rx) = oneshot::channel::<u32>();
    drop(rx);
    assert_eq!(tx.send(5), Err(5));
}
