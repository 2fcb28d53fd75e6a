use vstd::prelude::*;

use crate::telegram::user_message::{substring, substring_spec, Entity, EntityKind};

verus! {

/// The note that the bot logs for each mention and each bot command in a
/// message, in order.
pub open spec fn entity_notes_spec(data: Seq<char>, entities: Seq<Entity>) -> Seq<Seq<char>>
    decreases entities.len(),
{
    if entities.len() == 0 {
        Seq::empty()
    } else {
        let e = entities.last();
        let rest = entity_notes_spec(data, entities.drop_last());
        let value = substring_spec(data, e.offset, e.length);
        match e.kind {
            EntityKind::Mention => rest.push("You mentioned "@ + value),
            EntityKind::BotCommand => rest.push("Bot command found: "@ + value),
            EntityKind::Other => rest,
        }
    }
}

/// The notes that the bot logs for the mentions and bot commands of a text
/// message.
pub fn entity_notes(data: &String, entities: &Vec<Entity>) -> (res: Vec<String>)
    ensures
        res@.map_values(|s: String| s@) == entity_notes_spec(data@, entities@),
{
    let mut notes: Vec<String> = Vec::new();
    let mut i: usize = 0;
    while i < entities.len()
        invariant
            i <= entities.len(),
            notes@.map_values(|s: String| s@) == entity_notes_spec(data@, entities@.take(i as int)),
        decreases entities.len() - i,
    {
        let entity = entities[i];
        proof {
            assert(entities@.take(i + 1).drop_last() =~= entities@.take(i as int));
            assert(entities@.take(i + 1).last() == entity);
        }
        let ghost before = notes@;
        match entity.kind {
            EntityKind::Mention => {
                let mut note = "You mentioned ".to_owned();
                note.append(substring(data, entity.offset, entity.length).as_str());
                notes.push(note);
                assert(notes@.map_values(|s: String| s@) =~= before.map_values(|s: String| s@).push(note@));
            },
            EntityKind::BotCommand => {
                let mut note = "Bot command found: ".to_owned();
                note.append(substring(data, entity.offset, entity.length).as_str());
                notes.push(note);
                assert(notes@.map_values(|s: String| s@) =~= before.map_values(|s: String| s@).push(note@));
            },
            EntityKind::Other => {},
        }
        i = i + 1;
    }
    proof {
        assert(entities@.take(entities.len() as int) =~= entities@);
    }
    notes
}

/// The reply that the bot sends to a text message: a greeting of the
/// sender by first name that echoes the message.
pub open spec fn reply_text_spec(first_name: Seq<char>, data: Seq<char>) -> Seq<char> {
    "Привет, "@ + first_name + "! Команда echo дала '"@ + data + "'"@
}

/// The reply that the bot sends to the text message `data` from a user
/// whose first name is `first_name`.
pub fn reply_text(first_name: &str, data: &str) -> (res: String)
    ensures
        res@ == reply_text_spec(first_name@, data@),
{
    let mut text = "Привет, ".to_owned();
    text.append(first_name);
    text.append("! Команда echo дала '");
    text.append(data);
    text.append("'");
    text
}

} // verus!

verus! {

/// The note logged for one entity of a message that is a mention or a bot
/// command.
pub open spec fn note_of(data: Seq<char>, e: Entity) -> Seq<char> {
    if e.kind == EntityKind::Mention {
        "You mentioned "@ + substring_spec(data, e.offset, e.length)
    } else {
        "Bot command found: "@ + substring_spec(data, e.offset, e.length)
    }
}

/// A message's notes are one per mention or bot command, in order, each
/// the entity's kind followed by its text.
pub proof fn law_one_note_per_mention_or_command(data: Seq<char>, entities: Seq<Entity>)
    ensures
        entity_notes_spec(data, entities) == entities.filter(|e: Entity| e.kind != EntityKind::Other).map_values(
            |e: Entity| note_of(data, e),
        ),
    decreases entities.len(),
{
    let noted = |e: Entity| e.kind != EntityKind::Other;
    let note = |e: Entity| note_of(data, e);
    if entities.len() == 0 {
        assert(entities.filter(noted) =~= Seq::<Entity>::empty()) by {
            reveal_with_fuel(Seq::filter, 1);
        }
        assert(entities.filter(noted).map_values(note) =~= Seq::<Seq<char>>::empty());
    } else {
        let rest = entities.drop_last();
        let e = entities.last();
        law_one_note_per_mention_or_command(data, rest);
        assert(rest.push(e) =~= entities);
        rest.lemma_filter_push(e, noted);
        if noted(e) {
            assert(rest.filter(noted).push(e).map_values(note) =~= rest.filter(noted).map_values(note).push(
                note(e),
            ));
        }
    }
}

/// The reply greets the sender by first name and echoes the whole message:
/// it is 30 characters longer than the name and the message together, the
/// name stands after the 8 characters of the greeting, and the message
/// stands whole between the 21 characters that follow the name and the
/// closing quote.
pub proof fn law_reply_echoes_whole_message(first_name: Seq<char>, data: Seq<char>)
    ensures
        reply_text_spec(first_name, data).len() == first_name.len() + data.len() + 30,
        reply_text_spec(first_name, data).subrange(8, 8 + first_name.len() as int) == first_name,
        reply_text_spec(first_name, data).subrange(
            29 + first_name.len() as int,
            29 + first_name.len() + data.len() as int,
        ) == data,
        reply_text_spec(first_name, data).last() == '\'',
{
    reveal_strlit("Привет, ");
    reveal_strlit("! Команда echo дала '");
    reveal_strlit("'");
    let r = reply_text_spec(first_name, data);
    assert(r.subrange(8, 8 + first_name.len() as int) =~= first_name);
    assert(r.subrange(29 + first_name.len() as int, 29 + first_name.len() + data.len() as int) =~= data);
}

} // verus!
