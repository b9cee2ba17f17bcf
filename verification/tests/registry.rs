use gateway::lobby::{read_press, Handling, Interaction, Lobby, LobbyError, Reply, ReplyKind};
use gateway::registry::Registry;
use tokio::sync::oneshot::error::TryRecvError;

#[test]
fn dispatch_without_registration_finds_no_waiter() {
    let mut registry = Registry::new();
    assert!(!registry.is_registered(7));
    assert!(!registry.dispatch(7, (1, 0)));
    assert!(!registry.is_registered(7));
    let mut other = registry.register(8);
    assert!(!registry.dispatch(7, (1, 0)));
    assert!(registry.is_registered(8));
    assert_eq!(other.try_recv(), Err(TryRecvError::Empty));
}

#[test]
fn register_then_dispatch_delivers_once() {
    let mut registry = Registry::new();
    let mut waiter = registry.register(7);
    assert!(registry.is_registered(7));
    assert_eq!(waiter.try_recv(), Err(TryRecvError::Empty));
    assert!(registry.dispatch(7, (21, 3)));
    assert_eq!(waiter.try_recv(), Ok((21, 3)));
    assert!(!registry.is_registered(7));
    assert!(!registry.dispatch(7, (22, 4)));
    assert_eq!(waiter.try_recv(), Err(TryRecvError::Closed));
}

#[test]
fn expire_then_dispatch_does_not_deliver() {
    let mut registry = Registry::new();
    let mut waiter = registry.register(7);
    assert!(registry.expire(7));
    assert!(!registry.is_registered(7));
    assert_eq!(waiter.try_recv(), Err(TryRecvError::Closed));
    assert!(!registry.dispatch(7, (21, 3)));
    assert_eq!(waiter.try_recv(), Err(TryRecvError::Closed));
    assert!(!registry.expire(7));
}

#[test]
fn dispatch_then_expire_finds_nothing() {
    let mut registry = Registry::new();
    let mut waiter = registry.register(7);
    assert!(registry.dispatch(7, (21, 3)));
    assert!(!registry.expire(7));
    assert_eq!(waiter.try_recv(), Ok((21, 3)));
}

#[test]
fn second_registration_replaces_the_first() {
    let mut registry = Registry::new();
    let mut first = registry.register(7);
    let mut second = registry.register(7);
    assert_eq!(first.try_recv(), Err(TryRecvError::Closed));
    assert_eq!(second.try_recv(), Err(TryRecvError::Empty));
    assert!(registry.dispatch(7, (21, 3)));
    assert_eq!(first.try_recv(), Err(TryRecvError::Closed));
    assert_eq!(second.try_recv(), Ok((21, 3)));
    assert!(!registry.dispatch(7, (21, 3)));
}

#[test]
fn identifiers_do_not_touch_each_other() {
    let mut registry = Registry::new();
    let mut a = registry.register(1);
    let mut b = registry.register(2);
    let mut c = registry.register(u64::MAX);
    assert!(registry.dispatch(2, (5, 1)));
    assert_eq!(a.try_recv(), Err(TryRecvError::Empty));
    assert_eq!(b.try_recv(), Ok((5, 1)));
    assert!(registry.expire(1));
    assert_eq!(a.try_recv(), Err(TryRecvError::Closed));
    assert_eq!(c.try_recv(), Err(TryRecvError::Empty));
    assert!(registry.dispatch(u64::MAX, (6, 2)));
    assert_eq!(c.try_recv(), Ok((6, 2)));
}

#[test]
fn dispatch_to_a_waiter_that_left_still_counts() {
    let mut registry = Registry::new();
    let waiter = registry.register(7);
    drop(waiter);
    assert!(registry.dispatch(7, (21, 3)));
    assert!(!registry.dispatch(7, (21, 3)));
    assert!(!Registry::deliver(None, (1, 1)));
}

#[test]
fn ping_is_answered_with_pong() {
    let mut lobby = Lobby::new(99);
    assert_eq!(lobby.app(), 99);
    assert_eq!(
        lobby.on_interaction(Interaction::Ping),
        Handling::Reply(Reply { kind: ReplyKind::Pong, data: None })
    );
}

#[test]
fn help_lists_the_commands() {
    let mut lobby = Lobby::new(99);
    let handling = lobby.on_interaction(Interaction::Command { name: "help".to_string() });
    assert_eq!(handling, Handling::Reply(Lobby::on_help_command()));
    let reply = Lobby::on_help_command();
    assert_eq!(reply.kind, ReplyKind::Message);
    let data = reply.data.unwrap();
    assert_eq!(data.content, None);
    assert!(data.ephemeral);
    let embeds = data.embeds.unwrap();
    assert_eq!(embeds.len(), 1);
    assert_eq!(embeds[0].kind, "rich");
    assert_eq!(embeds[0].title, "Quizzo Commands");
    assert_eq!(embeds[0].description, "Available commands for Quizzo.");
    assert_eq!(embeds[0].fields.len(), 2);
    assert_eq!(embeds[0].fields[0].name, "`/create url`");
    assert_eq!(
        embeds[0].fields[0].value,
        "Start a quiz at the given URL. Only accepts attachment URIs from Discord's CDN."
    );
    assert!(!embeds[0].fields[0].inline);
    assert_eq!(embeds[0].fields[1].name, "`/help`");
    assert_eq!(embeds[0].fields[1].value, "Summon this help menu!");
    assert!(!embeds[0].fields[1].inline);
}

#[test]
fn create_is_handed_over() {
    let mut lobby = Lobby::new(99);
    assert_eq!(
        lobby.on_interaction(Interaction::Command { name: "create".to_string() }),
        Handling::Create
    );
    assert_eq!(Lobby::on_app_comm(&"create".to_string()), Ok(Handling::Create));
}

#[test]
fn unknown_command_is_turned_away() {
    let mut lobby = Lobby::new(99);
    for name in ["", "Help", "creat", "create ", "delete"] {
        assert_eq!(Lobby::on_app_comm(&name.to_string()), Err(LobbyError::UnknownCommandName));
        let handling = lobby.on_interaction(Interaction::Command { name: name.to_string() });
        assert_eq!(
            handling,
            Handling::Reply(Lobby::notice(LobbyError::UnknownCommandName.message()))
        );
    }
    let notice = Lobby::notice(LobbyError::UnknownCommandName.message());
    assert_eq!(notice.kind, ReplyKind::Message);
    let data = notice.data.unwrap();
    assert_eq!(data.content, Some("There is no command of that name.".to_string()));
    assert!(data.ephemeral);
    assert_eq!(data.embeds, None);
}

#[test]
fn unsupported_interaction_is_turned_away() {
    let mut lobby = Lobby::new(99);
    let handling = lobby.on_interaction(Interaction::Other);
    let expected = Lobby::notice("This kind of interaction is not supported.".to_string());
    assert_eq!(handling, Handling::Reply(expected));
    assert_eq!(
        LobbyError::UnsupportedInteraction.message(),
        "This kind of interaction is not supported."
    );
}

#[test]
fn component_press_reaches_the_waiter() {
    let mut lobby = Lobby::new(99);
    let mut waiter = lobby.register(1234);
    let press = Interaction::Component { origin: 1234, user: 55, choice: 2 };
    let ack = Handling::Reply(Reply { kind: ReplyKind::Acknowledge, data: None });
    assert_eq!(lobby.on_interaction(press.clone()), ack);
    assert_eq!(waiter.try_recv(), Ok((55, 2)));
    assert_eq!(lobby.on_interaction(press), ack);
    assert_eq!(waiter.try_recv(), Err(TryRecvError::Closed));
}

#[test]
fn component_press_after_expiry_is_dropped() {
    let mut lobby = Lobby::new(99);
    let mut waiter = lobby.register(1234);
    assert!(lobby.expire(1234));
    assert!(!lobby.expire(1234));
    let reply = lobby.on_msg_interaction(1234, 55, 2);
    assert_eq!(reply, Reply { kind: ReplyKind::Acknowledge, data: None });
    assert_eq!(waiter.try_recv(), Err(TryRecvError::Closed));
}

#[test]
fn other_interactions_leave_waiters_alone() {
    let mut lobby = Lobby::new(99);
    let mut waiter = lobby.register(1234);
    lobby.on_interaction(Interaction::Ping);
    lobby.on_interaction(Interaction::Other);
    lobby.on_interaction(Interaction::Command { name: "help".to_string() });
    lobby.on_interaction(Interaction::Component { origin: 1, user: 2, choice: 3 });
    assert_eq!(waiter.try_recv(), Err(TryRecvError::Empty));
    lobby.on_interaction(Interaction::Component { origin: 1234, user: 2, choice: 3 });
    assert_eq!(waiter.try_recv(), Ok((2, 3)));
}

#[test]
fn complete_press_is_read_as_one() {
    assert_eq!(
        read_press(Some(1234), Some(55), b"2"),
        Interaction::Component { origin: 1234, user: 55, choice: 2 }
    );
    assert_eq!(
        read_press(Some(u64::MAX), Some(0), b"0"),
        Interaction::Component { origin: u64::MAX, user: 0, choice: 0 }
    );
}

#[test]
fn incomplete_press_is_not_handled() {
    assert_eq!(read_press(None, Some(55), b"2"), Interaction::Other);
    assert_eq!(read_press(Some(1234), None, b"2"), Interaction::Other);
    assert_eq!(read_press(None, None, b"2"), Interaction::Other);
    assert_eq!(read_press(Some(1234), Some(55), b""), Interaction::Other);
    assert_eq!(read_press(Some(1234), Some(55), b"two"), Interaction::Other);
    assert_eq!(read_press(Some(1234), Some(55), b"+2"), Interaction::Other);
    assert_eq!(
        read_press(Some(1234), Some(55), b"99999999999999999999999999"),
        Interaction::Other
    );
    let mut lobby = Lobby::new(99);
    let mut waiter = lobby.register(1234);
    let handling = lobby.on_interaction(read_press(Some(1234), Some(55), b"two"));
    assert_eq!(
        handling,
        Handling::Reply(Lobby::notice(LobbyError::UnsupportedInteraction.message()))
    );
    assert_eq!(waiter.try_recv(), Err(TryRecvError::Empty));
}
