use vstd::prelude::*;

verus! {

/// The characters of `data` that a message entity at `offset` covering
/// `length` characters marks. Both counts are taken as `usize`, as a cast
/// from `i64` gives them; a start past the end gives the empty text, and a
/// length past the end stops at the end.
pub open spec fn substring_spec(data: Seq<char>, offset: i64, length: i64) -> Seq<char> {
    let skip = offset as usize as int;
    let take = length as usize as int;
    let start = if skip < data.len() { skip } else { data.len() as int };
    let end = if take < data.len() - start { start + take } else { data.len() as int };
    data.subrange(start, end)
}

/// The text that `length` characters of `data` from character `offset` on
/// make up (chars skipped, then taken, as the entities of a chat message
/// count them).
pub fn substring(data: &String, offset: i64, length: i64) -> (res: String)
    ensures
        res@ == substring_spec(data@, offset, length),
{
    let text = data.as_str();
    let n = text.unicode_len();
    let skip = offset as usize;
    let take = length as usize;
    let start = if skip < n { skip } else { n };
    let end = if take < n - start { start + take } else { n };
    text.substring_char(start, end).to_owned()
}

} // verus!

verus! {

/// What kind of span of a chat message an entity marks; the kinds that the
/// bot does not act on are `Other`.
#[derive(Clone, Copy, Debug, PartialEq, Eq, Structural)]
pub enum EntityKind {
    Mention,
    BotCommand,
    Other,
}

/// A marked span of a chat message: `length` characters from character
/// `offset` on.
#[derive(Clone, Copy, Debug, PartialEq, Eq, Structural)]
pub struct Entity {
    pub offset: i64,
    pub length: i64,
    pub kind: EntityKind,
}

/// The texts of the mentions among `entities`, in their order.
pub open spec fn mentions_of(data: Seq<char>, entities: Seq<Entity>) -> Seq<Seq<char>>
    decreases entities.len(),
{
    if entities.len() == 0 {
        Seq::empty()
    } else {
        let e = entities.last();
        let rest = mentions_of(data, entities.drop_last());
        if e.kind == EntityKind::Mention {
            rest.push(substring_spec(data, e.offset, e.length))
        } else {
            rest
        }
    }
}

/// The text of the first bot command among `entities`, if there is one.
pub open spec fn first_command(data: Seq<char>, entities: Seq<Entity>) -> Option<Seq<char>>
    decreases entities.len(),
{
    if entities.len() == 0 {
        None
    } else {
        let e = entities.last();
        let before = first_command(data, entities.drop_last());
        if before is Some {
            before
        } else if e.kind == EntityKind::BotCommand {
            Some(substring_spec(data, e.offset, e.length))
        } else {
            None
        }
    }
}

/// A chat message read for the bot: the first command in it, and who it
/// mentions.
pub struct UserMessage {
    pub command: Option<String>,
    pub mentions: Vec<String>,
}

pub open spec fn strings_view(v: Seq<String>) -> Seq<Seq<char>> {
    v.map_values(|s: String| s@)
}

pub open spec fn option_string_view(o: Option<String>) -> Option<Seq<char>> {
    match o {
        Some(s) => Some(s@),
        None => None,
    }
}

impl UserMessage {
    /// Reads `data` by its `entities`: the first bot command becomes the
    /// command (later ones are rejected), each mention is kept in order.
    pub fn new(data: &String, entities: &Vec<Entity>) -> (res: UserMessage)
        ensures
            option_string_view(res.command) == first_command(data@, entities@),
            strings_view(res.mentions@) == mentions_of(data@, entities@),
    {
        let mut command: Option<String> = None;
        let mut mentions: Vec<String> = Vec::new();
        let mut i: usize = 0;
        while i < entities.len()
            invariant
                i <= entities.len(),
                option_string_view(command) == first_command(data@, entities@.take(i as int)),
                strings_view(mentions@) == mentions_of(data@, entities@.take(i as int)),
            decreases entities.len() - i,
        {
            let entity = entities[i];
            proof {
                assert(entities@.take(i + 1).drop_last() =~= entities@.take(i as int));
                assert(entities@.take(i + 1).last() == entity);
            }
            match entity.kind {
                EntityKind::Mention => {
                    let value = substring(data, entity.offset, entity.length);
                    let ghost before = mentions@;
                    mentions.push(value);
                    proof {
                        assert(strings_view(mentions@) =~= strings_view(before).push(value@));
                    }
                },
                EntityKind::BotCommand => {
                    if command.is_none() {
                        command = Some(substring(data, entity.offset, entity.length));
                    }
                },
                EntityKind::Other => {},
            }
            i = i + 1;
        }
        proof {
            assert(entities@.take(entities.len() as int) =~= entities@);
        }
        UserMessage { command, mentions }
    }
}

} // verus!

verus! {

/// Cutting a text at `k` characters and reading both parts as entities gives
/// the text back.
pub proof fn law_substring_split(data: Seq<char>, k: i64, m: i64)
    requires
        0 <= k <= usize::MAX,
        0 <= m <= usize::MAX,
        k + m == data.len(),
    ensures
        substring_spec(data, 0, k) + substring_spec(data, k, m) == data,
{
    assert(substring_spec(data, 0, k) + substring_spec(data, k, m) =~= data);
}

/// An entity that starts inside the text covers `length` characters from
/// its offset on, or the rest of the text when that is shorter; one that
/// starts past the end covers nothing.
pub proof fn law_substring_window(data: Seq<char>, offset: i64, length: i64)
    requires
        0 <= offset <= usize::MAX,
        0 <= length <= usize::MAX,
    ensures
        offset >= data.len() ==> substring_spec(data, offset, length).len() == 0,
        offset < data.len() ==> substring_spec(data, offset, length).len() == (if offset + length
            <= data.len() {
            length as int
        } else {
            data.len() - offset
        }),
        forall|i: int|
            0 <= i < substring_spec(data, offset, length).len() ==> #[trigger] substring_spec(
                data,
                offset,
                length,
            )[i] == data[offset + i],
{
}

/// The mentions of a message are the texts of its mention entities, in
/// order.
pub proof fn law_mentions_are_mention_entities(data: Seq<char>, entities: Seq<Entity>)
    ensures
        mentions_of(data, entities) == entities.filter(|e: Entity| e.kind == EntityKind::Mention).map_values(
            |e: Entity| substring_spec(data, e.offset, e.length),
        ),
    decreases entities.len(),
{
    let is_mention = |e: Entity| e.kind == EntityKind::Mention;
    let text = |e: Entity| substring_spec(data, e.offset, e.length);
    if entities.len() == 0 {
        assert(entities.filter(is_mention) =~= Seq::<Entity>::empty()) by {
            reveal_with_fuel(Seq::filter, 1);
        }
        assert(entities.filter(is_mention).map_values(text) =~= Seq::<Seq<char>>::empty());
    } else {
        let rest = entities.drop_last();
        let e = entities.last();
        law_mentions_are_mention_entities(data, rest);
        assert(rest.push(e) =~= entities);
        rest.lemma_filter_push(e, is_mention);
        if is_mention(e) {
            assert(rest.filter(is_mention).push(e).map_values(text) =~= rest.filter(is_mention).map_values(
                text,
            ).push(text(e)));
        }
    }
}

/// A message has a command exactly when one of its entities is a bot
/// command, and the command is the text of the first of them.
pub proof fn law_command_is_first_bot_command(data: Seq<char>, entities: Seq<Entity>)
    ensures
        first_command(data, entities) is None <==> (forall|i: int|
            0 <= i < entities.len() ==> (#[trigger] entities[i]).kind != EntityKind::BotCommand),
        first_command(data, entities) is Some ==> exists|i: int|
            0 <= i < entities.len() && (#[trigger] entities[i]).kind == EntityKind::BotCommand
                && (forall|j: int| 0 <= j < i ==> (#[trigger] entities[j]).kind != EntityKind::BotCommand)
                && first_command(data, entities) == Some(
                substring_spec(data, entities[i].offset, entities[i].length),
            ),
    decreases entities.len(),
{
    if entities.len() > 0 {
        let rest = entities.drop_last();
        law_command_is_first_bot_command(data, rest);
        assert forall|i: int| 0 <= i < rest.len() implies rest[i] == entities[i] by {}
        if first_command(data, rest) is Some {
            let i = choose|i: int|
                0 <= i < rest.len() && (#[trigger] rest[i]).kind == EntityKind::BotCommand
                    && (forall|j: int| 0 <= j < i ==> (#[trigger] rest[j]).kind != EntityKind::BotCommand)
                    && first_command(data, rest) == Some(
                    substring_spec(data, rest[i].offset, rest[i].length),
                );
            assert(entities[i] == rest[i]);
            assert forall|j: int| 0 <= j < i implies (#[trigger] entities[j]).kind
                != EntityKind::BotCommand by {
                assert(entities[j] == rest[j]);
            }
        } else {
            assert forall|j: int| 0 <= j < entities.len() - 1 implies (#[trigger] entities[j]).kind
                != EntityKind::BotCommand by {
                assert(entities[j] == rest[j]);
            }
        }
    }
}

} // verus!

verus! {

/// How many of `entities` are bot commands.
pub open spec fn bot_command_count(entities: Seq<Entity>) -> nat
    decreases entities.len(),
{
    if entities.len() == 0 {
        0
    } else {
        bot_command_count(entities.drop_last()) + if entities.last().kind == EntityKind::BotCommand {
            1nat
        } else {
            0nat
        }
    }
}

/// The note that is logged when a message holds a bot command after its
/// first one.
pub open spec fn rejection_note() -> Seq<char> {
    "Secondary command found, rejecting"@
}

/// The notes logged while a message is read: one rejection note for each
/// bot command after the first.
pub fn secondary_command_notes(entities: &Vec<Entity>) -> (res: Vec<String>)
    ensures
        res@.len() == (if bot_command_count(entities@) > 0 {
            bot_command_count(entities@) - 1
        } else {
            0
        }),
        forall|i: int| 0 <= i < res@.len() ==> (#[trigger] res@[i])@ == rejection_note(),
{
    let mut notes: Vec<String> = Vec::new();
    let mut seen = false;
    let mut i: usize = 0;
    while i < entities.len()
        invariant
            i <= entities.len(),
            seen == (bot_command_count(entities@.take(i as int)) > 0),
            notes@.len() == (if bot_command_count(entities@.take(i as int)) > 0 {
                bot_command_count(entities@.take(i as int)) - 1
            } else {
                0
            }),
            forall|j: int| 0 <= j < notes@.len() ==> (#[trigger] notes@[j])@ == rejection_note(),
        decreases entities.len() - i,
    {
        proof {
            assert(entities@.take(i + 1).drop_last() =~= entities@.take(i as int));
            assert(entities@.take(i + 1).last() == entities@[i as int]);
        }
        if entities[i].kind == EntityKind::BotCommand {
            if seen {
                notes.push("Secondary command found, rejecting".to_owned());
            } else {
                seen = true;
            }
        }
        i = i + 1;
    }
    proof {
        assert(entities@.take(entities.len() as int) =~= entities@);
    }
    notes
}

/// Reading a whole text as one entity gives the text back.
pub proof fn law_substring_whole(data: Seq<char>, n: i64)
    requires
        0 <= n <= usize::MAX,
        n == data.len(),
    ensures
        substring_spec(data, 0, n) == data,
{
    assert(substring_spec(data, 0, n) =~= data);
}

/// An entity that is neither a mention nor a bot command, put anywhere among
/// the entities, changes neither the command nor the mentions of a message,
/// nor the notes logged for secondary commands.
pub proof fn law_other_entity_ignored(data: Seq<char>, entities: Seq<Entity>, i: int, e: Entity)
    requires
        0 <= i <= entities.len(),
        e.kind == EntityKind::Other,
    ensures
        first_command(data, entities.insert(i, e)) == first_command(data, entities),
        mentions_of(data, entities.insert(i, e)) == mentions_of(data, entities),
        bot_command_count(entities.insert(i, e)) == bot_command_count(entities),
    decreases entities.len(),
{
    let with = entities.insert(i, e);
    if i == entities.len() {
        assert(with.drop_last() =~= entities);
    } else {
        assert(with.drop_last() =~= entities.drop_last().insert(i, e));
        assert(with.last() == entities.last());
        law_other_entity_ignored(data, entities.drop_last(), i, e);
    }
}

} // verus!
