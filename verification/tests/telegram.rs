use yabook::telegram::chat::{entity_notes, reply_text};
use yabook::telegram::client::{BookingListResponse, CreateBookingRequest, CreateBookingResponse};
use yabook::telegram::models::{GameType, LobbyStatus};
use yabook::telegram::user_message::{secondary_command_notes, substring, Entity, EntityKind, UserMessage};

fn entity(offset: i64, length: i64, kind: EntityKind) -> Entity {
    Entity { offset, length, kind }
}

#[test]
fn substring_counts_chars() {
    let s = "Привет, @bob".to_string();
    assert_eq!(substring(&s, 8, 4), "@bob");
    assert_eq!(substring(&s, 0, 6), "Привет");
    assert_eq!(substring(&s, 8, 100), "@bob");
    assert_eq!(substring(&s, 20, 3), "");
}

#[test]
fn substring_negative_counts_wrap() {
    let s = "hello".to_string();
    assert_eq!(substring(&s, -1, 2), "");
    assert_eq!(substring(&s, 1, -1), "ello");
}

#[test]
fn substring_split_gives_text_back() {
    let s = "ab€cd".to_string();
    for k in 0..=5i64 {
        let joined = substring(&s, 0, k) + &substring(&s, k, 5 - k);
        assert_eq!(joined, s);
    }
}

#[test]
fn user_message_reads_command_and_mentions() {
    let data = "/book @amy @bob /cancel".to_string();
    let entities = vec![
        entity(0, 5, EntityKind::BotCommand),
        entity(6, 4, EntityKind::Mention),
        entity(11, 4, EntityKind::Mention),
        entity(16, 7, EntityKind::BotCommand),
        entity(0, 1, EntityKind::Other),
    ];
    let m = UserMessage::new(&data, &entities);
    assert_eq!(m.command, Some("/book".to_string()));
    assert_eq!(m.mentions, vec!["@amy".to_string(), "@bob".to_string()]);
}

#[test]
fn user_message_without_command() {
    let data = "hi @amy".to_string();
    let m = UserMessage::new(&data, &vec![entity(3, 4, EntityKind::Mention)]);
    assert_eq!(m.command, None);
    assert_eq!(m.mentions, vec!["@amy".to_string()]);
    let empty = UserMessage::new(&data, &vec![]);
    assert_eq!(empty.command, None);
    assert!(empty.mentions.is_empty());
}

#[test]
fn entity_notes_for_mentions_and_commands() {
    let data = "/echo @amy".to_string();
    let notes = entity_notes(
        &data,
        &vec![entity(0, 5, EntityKind::BotCommand), entity(6, 4, EntityKind::Mention), entity(0, 2, EntityKind::Other)],
    );
    assert_eq!(notes, vec!["Bot command found: /echo".to_string(), "You mentioned @amy".to_string()]);
}

#[test]
fn reply_greets_and_echoes() {
    assert_eq!(reply_text("Ivan", "/echo hi"), "Привет, Ivan! Команда echo дала '/echo hi'");
}

#[test]
fn plain_client_types() {
    let r = CreateBookingRequest { table: "t".to_string(), owner: "o".to_string(), invite: vec![] };
    assert_eq!(r.clone(), r);
    let c = CreateBookingResponse { id: 1, status: "ok".to_string() };
    assert_eq!(c.id, 1);
    assert_eq!(BookingListResponse {}, BookingListResponse {});
    assert_ne!(GameType::Kicker, GameType::Pool);
    assert_ne!(LobbyStatus::Draft, LobbyStatus::Declined);
}

#[test]
fn second_command_is_rejected_once() {
    let data = "/start @bob /stop".to_string();
    let entities = vec![
        entity(0, 6, EntityKind::BotCommand),
        entity(7, 4, EntityKind::Mention),
        entity(12, 5, EntityKind::BotCommand),
    ];
    let m = UserMessage::new(&data, &entities);
    assert_eq!(m.command, Some("/start".to_string()));
    assert_eq!(m.mentions, vec!["@bob".to_string()]);
    assert_eq!(secondary_command_notes(&entities), vec!["Secondary command found, rejecting".to_string()]);
    let three = vec![entity(0, 1, EntityKind::BotCommand); 3];
    assert_eq!(secondary_command_notes(&three).len(), 2);
    assert!(secondary_command_notes(&vec![]).is_empty());
}

#[test]
fn other_entities_change_nothing() {
    let data = "/start @bob".to_string();
    let base = vec![entity(0, 6, EntityKind::BotCommand), entity(7, 4, EntityKind::Mention)];
    let mut with = base.clone();
    with.insert(1, entity(0, 3, EntityKind::Other));
    let a = UserMessage::new(&data, &base);
    let b = UserMessage::new(&data, &with);
    assert_eq!(a.command, b.command);
    assert_eq!(a.mentions, b.mentions);
}

#[test]
fn whole_text_as_one_entity() {
    let s = "Привет".to_string();
    assert_eq!(substring(&s, 0, 6), s);
}
