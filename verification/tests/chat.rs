use mud_comms::descriptor::DescriptorManager;
use mud_comms::descriptor::IoError;
use mud_comms::descriptor::NewDescriptorError;
use mud_comms::slack::HandleOutcome;
use mud_comms::slack::MessageContent;
use mud_comms::slack::PushMessage;
use mud_comms::slack::RouteDecision;
use mud_comms::slack::SessionTable;
use mud_comms::slack::SlackDescriptor;
use mud_comms::slack::SlackDescriptorManager;
use mud_comms::slack::{prepare_outbound, route, write_result};

fn dm(channel: &str, text: Option<&str>) -> PushMessage {
    PushMessage {
        channel: Some(channel.to_owned()),
        channel_type: Some("im".to_owned()),
        from_bot: false,
        content: Some(MessageContent { text: text.map(|t| t.to_owned()) }),
    }
}

fn open_conversation(
    table: &mut SessionTable,
    manager: &SlackDescriptorManager,
    channel: &str,
) -> SlackDescriptor {
    assert_eq!(table.handle_message(&dm(channel, Some("junk"))), HandleOutcome::SessionOpened);
    manager.new_descriptor().expect("descriptor should have been surfaced")
}

fn read_all(descriptor: &mut SlackDescriptor, buf_len: usize) -> Vec<u8> {
    let mut collected = Vec::new();
    loop {
        let mut buf = vec![0u8; buf_len];
        let n = descriptor.read(&mut buf).expect("read must not fail");
        if n == 0 {
            return collected;
        }
        collected.extend_from_slice(&buf[..n]);
    }
}

#[test]
fn first_event_opens_session_and_surfaces_one_descriptor() {
    let (manager, outbox) = SlackDescriptorManager::new("token".to_owned());
    let mut table = SessionTable::new(outbox);
    assert_eq!(table.handle_message(&dm("C1", Some("hello"))), HandleOutcome::SessionOpened);
    let d = manager.new_descriptor().expect("one descriptor expected");
    assert_eq!(d.get_hostname(), "SLACK:C1");
    // The triggering event was connection establishment, not content, and
    // exactly one descriptor was surfaced.
    match manager.new_descriptor() {
        Err(NewDescriptorError::NoneAvailable) => {}
        _ => panic!("no second descriptor may be surfaced"),
    }
}

#[test]
fn read_with_nothing_pending_returns_zero() {
    let (manager, outbox) = SlackDescriptorManager::new("token".to_owned());
    let mut table = SessionTable::new(outbox);
    let mut d = open_conversation(&mut table, &manager, "C1");
    let mut buf = vec![0u8; 16];
    assert_eq!(d.read(&mut buf), Ok(0));
    assert_eq!(buf, vec![0u8; 16]);
}

#[test]
fn two_messages_split_across_small_reads_keep_fifo_order() {
    let (manager, outbox) = SlackDescriptorManager::new("token".to_owned());
    let mut table = SessionTable::new(outbox);
    let mut d = open_conversation(&mut table, &manager, "C1");
    assert_eq!(table.handle_message(&dm("C1", Some("Hello"))), HandleOutcome::Forwarded);
    assert_eq!(table.handle_message(&dm("C1", Some("world!"))), HandleOutcome::Forwarded);
    // Buffer smaller than len(M1) + len(M2) + 2: bytes come back exactly as
    // M1 + "\n" + M2 + "\n", split at the caller's boundaries.
    let collected = read_all(&mut d, 4);
    assert_eq!(collected, b"Hello\nworld!\n".to_vec());
}

#[test]
fn one_message_drains_over_several_reads() {
    let (manager, outbox) = SlackDescriptorManager::new("token".to_owned());
    let mut table = SessionTable::new(outbox);
    let mut d = open_conversation(&mut table, &manager, "C1");
    assert_eq!(table.handle_message(&dm("C1", Some("abcdef"))), HandleOutcome::Forwarded);
    // A message larger than the buffer arrives intact across several reads:
    // no byte lost, duplicated or reordered.
    let mut buf = vec![0u8; 3];
    assert_eq!(d.read(&mut buf), Ok(3));
    assert_eq!(&buf[..], b"abc");
    assert_eq!(d.read(&mut buf), Ok(3));
    assert_eq!(&buf[..], b"def");
    assert_eq!(d.read(&mut buf), Ok(1));
    assert_eq!(&buf[..1], b"\n");
    assert_eq!(d.read(&mut buf), Ok(0));
}

#[test]
fn message_without_text_reads_as_zero() {
    let (manager, outbox) = SlackDescriptorManager::new("token".to_owned());
    let mut table = SessionTable::new(outbox);
    let mut d = open_conversation(&mut table, &manager, "C1");
    assert_eq!(table.handle_message(&dm("C1", None)), HandleOutcome::Forwarded);
    let mut buf = vec![0u8; 8];
    assert_eq!(d.read(&mut buf), Ok(0));
}

#[test]
fn closed_descriptor_reopens_session_with_one_new_descriptor() {
    let (manager, outbox) = SlackDescriptorManager::new("token".to_owned());
    let mut table = SessionTable::new(outbox);
    let d = open_conversation(&mut table, &manager, "C1");
    drop(d);
    // The next inbound message for the same conversation is treated as a new
    // session, never an error: exactly one fresh descriptor is surfaced.
    assert_eq!(table.handle_message(&dm("C1", Some("anyone?"))), HandleOutcome::SessionReopened);
    let mut d2 = manager.new_descriptor().expect("a fresh descriptor expected");
    assert_eq!(d2.get_hostname(), "SLACK:C1");
    match manager.new_descriptor() {
        Err(NewDescriptorError::NoneAvailable) => {}
        _ => panic!("exactly one fresh descriptor may be surfaced"),
    }
    // The reopening event itself was connection establishment; content flows
    // from the next message on.
    assert_eq!(table.handle_message(&dm("C1", Some("yes"))), HandleOutcome::Forwarded);
    let collected = read_all(&mut d2, 16);
    assert_eq!(collected, b"yes\n".to_vec());
}

#[test]
fn dropping_the_table_disconnects_reads() {
    let (manager, outbox) = SlackDescriptorManager::new("token".to_owned());
    let mut table = SessionTable::new(outbox);
    let mut d = open_conversation(&mut table, &manager, "C1");
    drop(table);
    let mut buf = vec![0u8; 8];
    assert_eq!(d.read(&mut buf), Err(IoError::ConnectionClosed));
}

#[test]
fn dropping_the_manager_makes_open_report_it() {
    let (manager, outbox) = SlackDescriptorManager::new("token".to_owned());
    let mut table = SessionTable::new(outbox);
    drop(manager);
    assert_eq!(table.handle_message(&dm("C1", Some("hello"))), HandleOutcome::ManagerGone);
}

#[test]
fn bot_and_non_dm_events_are_ignored() {
    let (manager, outbox) = SlackDescriptorManager::new("token".to_owned());
    let mut table = SessionTable::new(outbox);
    let mut bot_msg = dm("C1", Some("beep"));
    bot_msg.from_bot = true;
    assert_eq!(table.handle_message(&bot_msg), HandleOutcome::Ignored);
    let mut channel_msg = dm("C1", Some("hi all"));
    channel_msg.channel_type = Some("channel".to_owned());
    assert_eq!(table.handle_message(&channel_msg), HandleOutcome::Ignored);
    let mut typeless = dm("C1", Some("hi"));
    typeless.channel_type = None;
    assert_eq!(table.handle_message(&typeless), HandleOutcome::Ignored);
    assert!(!table.knows_channel(&"C1".to_owned()));
    match manager.new_descriptor() {
        Err(NewDescriptorError::NoneAvailable) => {}
        _ => panic!("ignored events must not surface descriptors"),
    }
}

#[test]
fn known_conversation_event_without_content_is_ignored() {
    let (manager, outbox) = SlackDescriptorManager::new("token".to_owned());
    let mut table = SessionTable::new(outbox);
    let _d = open_conversation(&mut table, &manager, "C1");
    let mut no_content = dm("C1", Some("x"));
    no_content.content = None;
    assert_eq!(table.handle_message(&no_content), HandleOutcome::Ignored);
}

#[test]
fn route_follows_the_filter() {
    let msg = dm("C1", Some("hi"));
    assert_eq!(route(&msg, false), RouteDecision::OpenSession);
    assert_eq!(route(&msg, true), RouteDecision::Forward);
    let mut bot_msg = dm("C1", Some("hi"));
    bot_msg.from_bot = true;
    assert_eq!(route(&bot_msg, false), RouteDecision::Ignore);
    let mut no_channel = dm("C1", Some("hi"));
    no_channel.channel = None;
    assert_eq!(route(&no_channel, true), RouteDecision::Ignore);
    let mut no_content = dm("C1", Some("hi"));
    no_content.content = None;
    assert_eq!(route(&no_content, true), RouteDecision::Ignore);
    assert_eq!(route(&no_content, false), RouteDecision::OpenSession);
}

#[test]
fn block_until_descriptor_returns_once_one_is_queued() {
    let (manager, outbox) = SlackDescriptorManager::new("token".to_owned());
    let mut table = SessionTable::new(outbox);
    assert_eq!(table.handle_message(&dm("C1", Some("hello"))), HandleOutcome::SessionOpened);
    assert_eq!(manager.block_until_descriptor(), Ok(()));
    assert!(manager.new_descriptor().is_ok());
}

#[test]
fn registry_registers_each_descriptor_once() {
    let (mut manager, outbox) = SlackDescriptorManager::new("token".to_owned());
    let mut table = SessionTable::new(outbox);
    assert_eq!(table.handle_message(&dm("C1", Some("hello"))), HandleOutcome::SessionOpened);
    let id = manager.get_new_descriptor().expect("a new registered descriptor");
    assert_eq!(id.identifier, "C1");
    assert_eq!(id.descriptor_type, "SLACK");
    assert!(manager.knows_descriptor(&id));
    assert_eq!(manager.get_new_descriptor(), None);
}

#[test]
fn registry_reads_and_closes_by_identity() {
    let (mut manager, outbox) = SlackDescriptorManager::new("token".to_owned());
    let mut table = SessionTable::new(outbox);
    assert_eq!(table.handle_message(&dm("C1", Some("hello"))), HandleOutcome::SessionOpened);
    let id = manager.get_new_descriptor().expect("a new registered descriptor");
    assert_eq!(table.handle_message(&dm("C1", Some("hey"))), HandleOutcome::Forwarded);
    let mut buf = vec![0u8; 16];
    assert_eq!(manager.read_registered(&id, &mut buf), Some(Ok(4)));
    assert_eq!(&buf[..4], b"hey\n");
    assert_eq!(manager.channel_of(&id).map(|c| c.as_str()), Some("C1"));
    manager.close_descriptor(&id);
    assert!(!manager.knows_descriptor(&id));
    assert_eq!(manager.read_registered(&id, &mut buf), None);
    assert_eq!(manager.channel_of(&id), None);
    // Closing dropped the registered descriptor, so the next inbound message
    // reopens the session.
    assert_eq!(table.handle_message(&dm("C1", Some("back"))), HandleOutcome::SessionReopened);
    assert_eq!(manager.get_new_descriptor(), Some(id));
}

#[test]
fn outbound_write_decisions() {
    let bytes = b"Hello player".to_vec();
    assert_eq!(prepare_outbound(&bytes), "Hello player".to_owned());
    assert_eq!(write_result(&bytes, true), Ok(12));
    assert_eq!(write_result(&bytes, false), Err(IoError::Other));
    // Invalid UTF-8 is replaced, never an error.
    let bad = vec![0x68, 0xff, 0x69];
    let text = prepare_outbound(&bad);
    assert_eq!(text, "h\u{fffd}i");
}

#[test]
fn bot_token_is_kept_for_the_outbound_client() {
    let (manager, _outbox) = SlackDescriptorManager::new("xoxb-1".to_owned());
    assert_eq!(manager.bot_token(), "xoxb-1");
}
