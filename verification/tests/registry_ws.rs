//! The broadcast registry against real bounded channels, and the
//! connection duties' decisions.

use authcore::registry::Registry;
use authcore::ws::convert_to_send;
use authcore::ws::heartbeat_action;
use authcore::ws::recv_action;
use authcore::ws::ClientFrame;
use authcore::ws::RecvAction;
use authcore::ws::SendInstruction;
use authcore::ws::WsServerMsg;

use tokio::sync::mpsc;

const ALICE: u128 = 7;
const CAROL: u128 = 8;

/// Attempt a delivery to every live session of the user, prune what
/// failed, and report which sessions took the message — the fan-out
/// step the registry's serial processor performs for a send-to-user
/// command.
fn send_to_user(reg: &mut Registry<mpsc::Sender<u32>>, user: u128, message: u32) -> Vec<u128> {
    let sessions = reg.user_sessions(user);
    let mut failed: Vec<u128> = Vec::new();
    let mut delivered: Vec<u128> = Vec::new();
    for s in sessions {
        let i = reg.find_entry(user, s).unwrap();
        if reg.handle_at(i).blocking_send(message).is_err() {
            failed.push(s);
        } else {
            delivered.push(s);
        }
    }
    reg.remove_sessions(user, &failed);
    delivered
}

#[test]
fn fan_out_reaches_every_live_session_and_prunes_dead_ones() {
    let mut reg: Registry<mpsc::Sender<u32>> = Registry::new();
    let (tx1, mut rx1) = mpsc::channel(1);
    let (tx2, rx2) = mpsc::channel(1);
    let (tx3, mut rx3) = mpsc::channel(1);
    reg.register_ws(tx1, ALICE, 1);
    reg.register_ws(tx2, ALICE, 2);
    reg.register_ws(tx3, ALICE, 3);
    assert_eq!(reg.len(), 3);

    // All three live sessions receive the message.
    let delivered = send_to_user(&mut reg, ALICE, 41);
    assert_eq!(delivered.len(), 3);
    assert_eq!(rx1.try_recv(), Ok(41));
    assert_eq!(rx3.try_recv(), Ok(41));

    // One receiver goes away: the other two still get the message and
    // the dead entry is gone afterwards.
    drop(rx2);
    let delivered = send_to_user(&mut reg, ALICE, 42);
    assert_eq!(delivered.len(), 2);
    assert!(delivered.contains(&1));
    assert!(delivered.contains(&3));
    assert_eq!(rx1.try_recv(), Ok(42));
    assert_eq!(rx3.try_recv(), Ok(42));
    assert_eq!(reg.len(), 2);
    assert!(reg.find_entry(ALICE, 2).is_none());
    assert!(reg.find_entry(ALICE, 1).is_some());
    assert!(reg.find_entry(ALICE, 3).is_some());
}

#[test]
fn close_user_removes_every_entry_and_signals_each_connection() {
    let mut reg: Registry<mpsc::Sender<WsServerMsg>> = Registry::new();
    let (tx1, mut rx1) = mpsc::channel(1);
    let (tx2, mut rx2) = mpsc::channel(1);
    let (tx3, mut rx3) = mpsc::channel(1);
    reg.register_ws(tx1, ALICE, 1);
    reg.register_ws(tx2, ALICE, 2);
    reg.register_ws(tx3, CAROL, 9);

    let removed = reg.close_user(ALICE);
    assert_eq!(removed.len(), 2);
    for (_, handle) in removed {
        let _ = handle.blocking_send(WsServerMsg::Close);
    }
    // Every previously-live connection of the user observes the close
    // instruction; the other user's connection does not.
    assert_eq!(rx1.try_recv(), Ok(WsServerMsg::Close));
    assert_eq!(rx2.try_recv(), Ok(WsServerMsg::Close));
    assert!(rx3.try_recv().is_err());
    assert_eq!(reg.len(), 1);
    assert!(reg.find_entry(ALICE, 1).is_none());
    assert!(reg.find_entry(ALICE, 2).is_none());
    assert!(reg.find_entry(CAROL, 9).is_some());
}

#[test]
fn close_session_removes_exactly_one_entry() {
    let mut reg: Registry<mpsc::Sender<WsServerMsg>> = Registry::new();
    let (tx1, mut rx1) = mpsc::channel(1);
    let (tx2, rx2) = mpsc::channel(1);
    reg.register_ws(tx1, ALICE, 1);
    reg.register_ws(tx2, ALICE, 2);

    let handle = reg.close_session(ALICE, 1).unwrap();
    let _ = handle.blocking_send(WsServerMsg::Close);
    assert_eq!(rx1.try_recv(), Ok(WsServerMsg::Close));
    assert!(reg.find_entry(ALICE, 1).is_none());
    assert!(reg.find_entry(ALICE, 2).is_some());
    assert!(reg.close_session(ALICE, 1).is_none());
    drop(rx2);
}

#[test]
fn register_overwrites_a_previous_entry_for_the_same_session() {
    let mut reg: Registry<mpsc::Sender<u32>> = Registry::new();
    let (tx1, rx1) = mpsc::channel(1);
    let (tx2, mut rx2) = mpsc::channel(1);
    reg.register_ws(tx1, ALICE, 1);
    reg.register_ws(tx2, ALICE, 1);
    assert_eq!(reg.len(), 1);
    drop(rx1);
    // The stored handle is the later one.
    let delivered = send_to_user(&mut reg, ALICE, 5);
    assert_eq!(delivered, vec![1]);
    assert_eq!(rx2.try_recv(), Ok(5));
}

#[test]
fn heartbeat_closes_only_past_the_timeout() {
    assert!(matches!(heartbeat_action(0), SendInstruction::Ping(_)));
    assert!(matches!(heartbeat_action(59), SendInstruction::Ping(_)));
    assert!(matches!(heartbeat_action(60), SendInstruction::Ping(_)));
    assert_eq!(heartbeat_action(61), SendInstruction::Close);
    assert_eq!(heartbeat_action(u64::MAX), SendInstruction::Close);
}

#[test]
fn client_frames_are_answered_as_the_protocol_asks() {
    assert_eq!(
        recv_action(ClientFrame::Ping(vec![1, 2])),
        RecvAction::Reply(SendInstruction::Pong(vec![1, 2]))
    );
    assert_eq!(recv_action(ClientFrame::Close), RecvAction::Stop);
    assert_eq!(recv_action(ClientFrame::Text(vec![123])), RecvAction::Ignore);
    assert_eq!(recv_action(ClientFrame::Binary(vec![0])), RecvAction::Ignore);
    assert_eq!(recv_action(ClientFrame::Pong(vec![])), RecvAction::Ignore);
}

#[test]
fn close_message_becomes_a_close_instruction() {
    assert_eq!(convert_to_send(&WsServerMsg::Close), SendInstruction::Close);
}
