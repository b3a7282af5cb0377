use libp2p::{Multiaddr, PeerId};
use p2p_coordination::{
    received, submitted, CallError, Client, Command, EngineError, Event, MAILBOX_CAPACITY,
    NOTIFICATION_CAPACITY,
};
use std::collections::HashSet;
use tokio::sync::mpsc::error::{SendError, TryRecvError, TrySendError};
use tokio::sync::oneshot;

fn address(port: u16) -> Multiaddr {
    format!("/ip4/127.0.0.1/tcp/{}", port).parse().unwrap()
}

fn peer(tag: u8) -> PeerId {
    PeerId::from_bytes(&[0, 4, tag, 2, 3, 4]).unwrap()
}

fn failure(reason: &str) -> EngineError {
    EngineError { reason: reason.to_string() }
}

#[test]
fn new_starts_with_nothing_outstanding() {
    let (_client, _events, event_loop) = Client::<u32>::new();
    assert_eq!(event_loop.coordinator.outstanding(), 0);
    assert!(event_loop.coordinator.mailbox_open());
    assert!(event_loop.coordinator.engine_active());
    assert!(!event_loop.coordinator.finished());
}

#[test]
fn new_bounds_the_mailbox_at_its_capacity() {
    let (client, _events, _event_loop) = Client::<u32>::new();
    assert_eq!(MAILBOX_CAPACITY, 1);
    assert_eq!(client.mailbox().max_capacity(), MAILBOX_CAPACITY);
    assert!(client.mailbox().try_send(client.respond_file(vec![1], 1)).is_ok());
    let refused = client.mailbox().try_send(client.respond_file(vec![2], 2));
    assert!(matches!(refused, Err(TrySendError::Full(Command::RespondFile { .. }))));
}

#[test]
fn new_bounds_the_notification_stream() {
    let (_client, mut events, event_loop) = Client::<u32>::new();
    assert_eq!(NOTIFICATION_CAPACITY, 1);
    assert_eq!(event_loop.event_sender.max_capacity(), NOTIFICATION_CAPACITY);
    let note = Event::InboundRequest { request: "file1".to_string(), channel: 9 };
    assert!(event_loop.event_sender.try_send(note).is_ok());
    assert_eq!(
        events.try_recv(),
        Ok(Event::InboundRequest { request: "file1".to_string(), channel: 9 })
    );
}

#[test]
fn mailbox_hands_actions_over_in_order() {
    let (client, _events, mut event_loop) = Client::<u32>::new();
    client.mailbox().try_send(client.respond_file(vec![1], 1)).unwrap();
    match event_loop.command_receiver.try_recv() {
        Ok(Command::RespondFile { file, channel }) => {
            assert_eq!(file, vec![1]);
            assert_eq!(channel, 1);
        }
        other => panic!("unexpected {:?}", other),
    }
    client.mailbox().try_send(client.respond_file(vec![2], 2)).unwrap();
    match event_loop.command_receiver.try_recv() {
        Ok(Command::RespondFile { file, channel }) => {
            assert_eq!(file, vec![2]);
            assert_eq!(channel, 2);
        }
        other => panic!("unexpected {:?}", other),
    }
    assert!(matches!(event_loop.command_receiver.try_recv(), Err(TryRecvError::Empty)));
}

#[test]
fn copies_of_a_handle_share_one_mailbox() {
    let (client, _events, mut event_loop) = Client::<u32>::new();
    let copy = client.clone();
    assert!(copy.mailbox().same_channel(client.mailbox()));
    copy.mailbox().try_send(copy.respond_file(vec![7], 3)).unwrap();
    assert!(matches!(
        event_loop.command_receiver.try_recv(),
        Ok(Command::RespondFile { channel: 3, .. })
    ));
    drop(client);
    assert!(matches!(event_loop.command_receiver.try_recv(), Err(TryRecvError::Empty)));
    drop(copy);
    assert!(matches!(
        event_loop.command_receiver.try_recv(),
        Err(TryRecvError::Disconnected)
    ));
}

#[test]
fn start_listening_carries_the_address_and_a_fresh_slot() {
    let (client, _events, _event_loop) = Client::<u32>::new();
    let (command, mut receiver) = client.start_listening(address(4001));
    match command {
        Command::StartListening { addr, sender } => {
            assert_eq!(addr, address(4001));
            assert!(matches!(receiver.try_recv(), Err(oneshot::error::TryRecvError::Empty)));
            sender.send(Ok(())).unwrap();
            assert_eq!(receiver.try_recv(), Ok(Ok(())));
        }
        other => panic!("unexpected {:?}", other),
    }
}

#[test]
fn dial_carries_the_peer_and_its_address() {
    let (client, _events, _event_loop) = Client::<u32>::new();
    let (command, mut receiver) = client.dial(peer(1), address(4002));
    match command {
        Command::Dial { peer_id, peer_addr, sender } => {
            assert_eq!(peer_id, peer(1));
            assert_eq!(peer_addr, address(4002));
            sender.send(Err(failure("dial failed"))).unwrap();
            assert_eq!(receiver.try_recv(), Ok(Err(failure("dial failed"))));
        }
        other => panic!("unexpected {:?}", other),
    }
}

#[test]
fn start_providing_carries_the_key() {
    let (client, _events, _event_loop) = Client::<u32>::new();
    let (command, mut receiver) = client.start_providing("file1".to_string());
    match command {
        Command::StartProviding { file_name, sender } => {
            assert_eq!(file_name, "file1");
            sender.send(Ok(())).unwrap();
            assert_eq!(receiver.try_recv(), Ok(Ok(())));
        }
        other => panic!("unexpected {:?}", other),
    }
}

#[test]
fn get_providers_carries_the_key() {
    let (client, _events, _event_loop) = Client::<u32>::new();
    let (command, mut receiver) = client.get_providers("file2".to_string());
    match command {
        Command::GetProviders { file_name, sender } => {
            assert_eq!(file_name, "file2");
            let found: HashSet<PeerId> = [peer(1), peer(2)].into_iter().collect();
            sender.send(Ok(found.clone())).unwrap();
            assert_eq!(receiver.try_recv(), Ok(Ok(found)));
        }
        other => panic!("unexpected {:?}", other),
    }
}

#[test]
fn request_file_carries_the_key_and_the_peer() {
    let (client, _events, _event_loop) = Client::<u32>::new();
    let (command, mut receiver) = client.request_file(peer(5), "file3".to_string());
    match command {
        Command::RequestFile { file_name, peer: target, sender } => {
            assert_eq!(file_name, "file3");
            assert_eq!(target, peer(5));
            sender.send(Ok(vec![1, 2, 3])).unwrap();
            assert_eq!(receiver.try_recv(), Ok(Ok(vec![1, 2, 3])));
        }
        other => panic!("unexpected {:?}", other),
    }
}

#[test]
fn respond_file_carries_the_payload_and_the_reply_token() {
    let (client, _events, _event_loop) = Client::<u32>::new();
    match client.respond_file(vec![9, 8, 7], 42) {
        Command::RespondFile { file, channel } => {
            assert_eq!(file, vec![9, 8, 7]);
            assert_eq!(channel, 42);
        }
        other => panic!("unexpected {:?}", other),
    }
}

#[test]
fn two_calls_get_two_reply_slots() {
    let (client, _events, _event_loop) = Client::<u32>::new();
    let (first, mut first_receiver) = client.start_providing("a".to_string());
    let (second, mut second_receiver) = client.start_providing("b".to_string());
    match (first, second) {
        (
            Command::StartProviding { sender: first_sender, .. },
            Command::StartProviding { sender: second_sender, .. },
        ) => {
            second_sender.send(Err(failure("second"))).unwrap();
            assert!(matches!(
                first_receiver.try_recv(),
                Err(oneshot::error::TryRecvError::Empty)
            ));
            assert_eq!(second_receiver.try_recv(), Ok(Err(failure("second"))));
            first_sender.send(Ok(())).unwrap();
            assert_eq!(first_receiver.try_recv(), Ok(Ok(())));
        }
        other => panic!("unexpected {:?}", other),
    }
}

#[test]
fn submitted_lets_an_accepted_action_go_on() {
    assert_eq!(submitted::<u8>(Ok(())), Ok(()));
    let (client, _events, _event_loop) = Client::<u32>::new();
    let sent = client.mailbox().blocking_send(client.respond_file(vec![1], 1));
    assert_eq!(submitted(sent), Ok(()));
}

#[test]
fn submitted_reports_a_closed_mailbox() {
    assert_eq!(submitted(Err(SendError(7u8))), Err(CallError::MailboxClosed));
    let (client, _events, event_loop) = Client::<u32>::new();
    drop(event_loop);
    let sent = client.mailbox().blocking_send(client.respond_file(vec![1], 1));
    assert_eq!(submitted(sent), Err(CallError::MailboxClosed));
}

#[test]
fn received_hands_the_value_on_unchanged() {
    let (sender, receiver) = oneshot::channel::<Result<Vec<u8>, EngineError>>();
    sender.send(Ok(vec![4, 5, 6])).unwrap();
    assert_eq!(received(receiver.blocking_recv()), Ok(vec![4, 5, 6]));
}

#[test]
fn received_hands_the_engine_error_on_unchanged() {
    let (sender, receiver) = oneshot::channel::<Result<(), EngineError>>();
    sender.send(Err(failure("request timed out"))).unwrap();
    assert_eq!(
        received(receiver.blocking_recv()),
        Err(CallError::Engine(failure("request timed out")))
    );
}

#[test]
fn received_reports_an_abandoned_slot() {
    let (sender, receiver) = oneshot::channel::<Result<(), EngineError>>();
    drop(sender);
    assert_eq!(received(receiver.blocking_recv()), Err(CallError::ResultLost));
}
