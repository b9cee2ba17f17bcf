//! The lobby: what the gateway answers to an authenticated interaction.
//!
//! A ping is answered with a pong, `/help` with the list of commands, and
//! a press on a message component is forwarded to the task that waits
//! for it. `/create` is handed to the embedding program, which owns the
//! business of starting a quiz; everything else is turned away with a
//! short notice that only the sender sees.

use crate::encoding::{decimal, parse_decimal};
use crate::registry::{after_removal, Event, Registry};
use tokio::sync::oneshot::Receiver;
use vstd::prelude::*;

verus! {

/// What the lobby reads of an inbound interaction.
#[derive(Clone, Debug, PartialEq, Eq)]
pub enum Interaction {
    /// The platform checks that the endpoint is alive.
    Ping,
    /// A slash command, by name.
    Command { name: String },
    /// A press on a component of the message that the interaction
    /// `origin` produced, by `user`, choosing entry `choice`.
    Component { origin: u64, user: u64, choice: usize },
    /// Any other kind of interaction.
    Other,
}

/// How a press on a message component is read: it counts as one when
/// the message names the interaction it came from, the press names the
/// user who made it, and the identifier of the component is the index
/// of the choice in decimal digits. Any other press is an interaction
/// that the lobby does not handle.
pub open spec fn pressed(origin: Option<u64>, user: Option<u64>, custom_id: Seq<u8>)
    -> Interaction {
    match (origin, user, decimal(custom_id)) {
        (Some(origin), Some(user), Some(choice)) => Interaction::Component { origin, user, choice },
        _ => Interaction::Other,
    }
}

/// Reads a press on a message component from the interaction that its
/// message came from, the user who pressed, and the identifier of the
/// component.
pub fn read_press(origin: Option<u64>, user: Option<u64>, custom_id: &[u8]) -> (out: Interaction)
    ensures
        out == pressed(origin, user, custom_id@),
{
    match (origin, user, parse_decimal(custom_id)) {
        (Some(origin), Some(user), Some(choice)) => Interaction::Component { origin, user, choice },
        _ => Interaction::Other,
    }
}

/// The kind of a reply.
#[derive(Clone, Copy, Debug, PartialEq, Eq, Structural)]
pub enum ReplyKind {
    /// Answer to a ping.
    Pong,
    /// A message in the channel of the interaction.
    Message,
    /// Acknowledges a component press without changing the message.
    Acknowledge,
}

/// One titled paragraph of an embed.
#[derive(Clone, Debug, PartialEq, Eq)]
pub struct EmbedField {
    pub name: String,
    pub value: String,
    pub inline: bool,
}

/// A rich block of text attached to a message.
#[derive(Clone, Debug, PartialEq, Eq)]
pub struct Embed {
    pub kind: String,
    pub title: String,
    pub description: String,
    pub fields: Vec<EmbedField>,
}

/// The payload of a message reply.
#[derive(Clone, Debug, PartialEq, Eq)]
pub struct ReplyData {
    pub content: Option<String>,
    /// Whether only the user who sent the interaction sees the message.
    pub ephemeral: bool,
    pub embeds: Option<Vec<Embed>>,
}

/// A reply to an interaction.
#[derive(Clone, Debug, PartialEq, Eq)]
pub struct Reply {
    pub kind: ReplyKind,
    pub data: Option<ReplyData>,
}

/// Why an interaction was turned away.
#[derive(Clone, Copy, Debug, PartialEq, Eq, Structural)]
pub enum LobbyError {
    /// The interaction is of a kind that the lobby does not handle.
    UnsupportedInteraction,
    /// The command is none of those that the lobby knows.
    UnknownCommandName,
}

impl LobbyError {
    /// The notice shown to the user.
    pub open spec fn text(self) -> Seq<char> {
        match self {
            LobbyError::UnsupportedInteraction => "This kind of interaction is not supported."@,
            LobbyError::UnknownCommandName => "There is no command of that name."@,
        }
    }

    /// The notice shown to the user.
    pub fn message(&self) -> (out: String)
        ensures
            out@ == self.text(),
    {
        match self {
            LobbyError::UnsupportedInteraction => {
                "This kind of interaction is not supported.".to_owned()
            },
            LobbyError::UnknownCommandName => "There is no command of that name.".to_owned(),
        }
    }
}

/// What becomes of an interaction.
#[derive(Clone, Debug, PartialEq, Eq)]
pub enum Handling {
    /// It is answered at once.
    Reply(Reply),
    /// It asks for a new quiz, which the embedding program starts.
    Create,
}

/// `r` is the answer to a ping.
pub open spec fn is_pong(r: Reply) -> bool {
    r.kind == ReplyKind::Pong && r.data is None
}

/// `r` acknowledges a component press.
pub open spec fn is_acknowledgement(r: Reply) -> bool {
    r.kind == ReplyKind::Acknowledge && r.data is None
}

/// `r` is a message with the text `text` and nothing else, shown to the
/// sender only.
pub open spec fn is_notice(r: Reply, text: Seq<char>) -> bool {
    &&& r.kind == ReplyKind::Message
    &&& r.data matches Some(data)
    &&& data.content matches Some(content)
    &&& content@ == text
    &&& data.ephemeral
    &&& data.embeds is None
}

/// `f` is a field with the given name and text, laid out on a line of its
/// own.
pub open spec fn is_field(f: EmbedField, name: Seq<char>, value: Seq<char>) -> bool {
    f.name@ == name && f.value@ == value && !f.inline
}

/// `r` is the list of commands, shown to the sender only.
pub open spec fn is_help(r: Reply) -> bool {
    &&& r.kind == ReplyKind::Message
    &&& r.data matches Some(data)
    &&& data.content is None
    &&& data.ephemeral
    &&& data.embeds matches Some(embeds)
    &&& embeds@.len() == 1
    &&& embeds@[0].kind@ == "rich"@
    &&& embeds@[0].title@ == "Quizzo Commands"@
    &&& embeds@[0].description@ == "Available commands for Quizzo."@
    &&& embeds@[0].fields@.len() == 2
    &&& is_field(
        embeds@[0].fields@[0],
        "`/create url`"@,
        "Start a quiz at the given URL. Only accepts attachment URIs from Discord's CDN."@,
    )
    &&& is_field(embeds@[0].fields@[1], "`/help`"@, "Summon this help menu!"@)
}

/// What a command comes to, by its name.
pub open spec fn command_outcome(name: Seq<char>, out: Result<Handling, LobbyError>) -> bool {
    if name == "create"@ {
        out matches Ok(Handling::Create)
    } else if name == "help"@ {
        out matches Ok(Handling::Reply(r)) && is_help(r)
    } else {
        out == Err::<Handling, LobbyError>(LobbyError::UnknownCommandName)
    }
}

/// What an interaction comes to: its handling, and the registered
/// identifiers before and after.
pub open spec fn interaction_outcome(
    interaction: Interaction,
    before: Set<u64>,
    out: Handling,
    after: Set<u64>,
) -> bool {
    match interaction {
        Interaction::Ping => {
            &&& after == before
            &&& out matches Handling::Reply(r)
            &&& is_pong(r)
        },
        Interaction::Command { name } => {
            &&& after == before
            &&& if name@ == "create"@ {
                out is Create
            } else if name@ == "help"@ {
                out matches Handling::Reply(r) && is_help(r)
            } else {
                out matches Handling::Reply(r) && is_notice(
                    r,
                    LobbyError::UnknownCommandName.text(),
                )
            }
        },
        Interaction::Component { origin, user, choice } => {
            &&& after == after_removal(before, origin)
            &&& out matches Handling::Reply(r)
            &&& is_acknowledgement(r)
        },
        Interaction::Other => {
            &&& after == before
            &&& out matches Handling::Reply(r)
            &&& is_notice(r, LobbyError::UnsupportedInteraction.text())
        },
    }
}

/// Answers interactions and keeps track of the quizzes that wait for
/// follow-up events.
pub struct Lobby {
    /// The tasks that wait for a follow-up event.
    quizzes: Registry,
    /// The application that the lobby serves.
    app: u64,
}

impl Lobby {
    /// The interactions that have a task waiting for their follow-up.
    pub closed spec fn registered(&self) -> Set<u64> {
        self.quizzes.registered()
    }

    /// The application that the lobby serves.
    pub closed spec fn application(&self) -> u64 {
        self.app
    }

    /// A lobby for the application `app`, with nothing registered.
    pub fn new(app: u64) -> (out: Lobby)
        ensures
            out.registered() == Set::<u64>::empty(),
            out.application() == app,
    {
        Lobby { quizzes: Registry::new(), app }
    }

    /// The application that the lobby serves.
    pub fn app(&self) -> (out: u64)
        ensures
            out == self.application(),
    {
        self.app
    }

    /// Registers a task that waits for the follow-up of `interaction`.
    /// An earlier registration of the same interaction is replaced.
    pub fn register(&mut self, interaction: u64) -> (receiver: Receiver<Event>)
        ensures
            final(self).registered() == old(self).registered().insert(interaction),
            final(self).application() == old(self).application(),
    {
        self.quizzes.register(interaction)
    }

    /// Ends the wait for the follow-up of `interaction` without an event.
    pub fn expire(&mut self, interaction: u64) -> (found: bool)
        ensures
            found == old(self).registered().contains(interaction),
            final(self).registered() == old(self).registered().remove(interaction),
            final(self).application() == old(self).application(),
    {
        self.quizzes.expire(interaction)
    }

    /// Handles one interaction. Whatever goes wrong is told to the user
    /// in a notice; a component press reaches the task that waits for
    /// it, if there is one, and is acknowledged either way.
    pub fn on_interaction(&mut self, interaction: Interaction) -> (out: Handling)
        ensures
            interaction_outcome(interaction, old(self).registered(), out, final(self).registered()),
            final(self).application() == old(self).application(),
    {
        let result = match interaction {
            Interaction::Ping => Ok(Handling::Reply(Reply { kind: ReplyKind::Pong, data: None })),
            Interaction::Command { name } => Lobby::on_app_comm(&name),
            Interaction::Component { origin, user, choice } => Ok(
                Handling::Reply(self.on_msg_interaction(origin, user, choice)),
            ),
            Interaction::Other => Err(LobbyError::UnsupportedInteraction),
        };
        match result {
            Ok(handling) => handling,
            Err(err) => Handling::Reply(Lobby::notice(err.message())),
        }
    }

    /// A message with `text` and nothing else, shown to the sender only.
    pub fn notice(text: String) -> (out: Reply)
        ensures
            is_notice(out, text@),
    {
        Reply {
            kind: ReplyKind::Message,
            data: Some(ReplyData { content: Some(text), ephemeral: true, embeds: None }),
        }
    }

    /// Responds to a slash command.
    pub fn on_app_comm(name: &String) -> (out: Result<Handling, LobbyError>)
        ensures
            command_outcome(name@, out),
    {
        let create = "create".to_owned();
        let help = "help".to_owned();
        if *name == create {
            Ok(Handling::Create)
        } else if *name == help {
            Ok(Handling::Reply(Lobby::on_help_command()))
        } else {
            Err(LobbyError::UnknownCommandName)
        }
    }

    /// The list of commands.
    pub fn on_help_command() -> (out: Reply)
        ensures
            is_help(out),
    {
        let mut fields: Vec<EmbedField> = Vec::new();
        fields.push(
            EmbedField {
                name: "`/create url`".to_owned(),
                value: "Start a quiz at the given URL. Only accepts attachment URIs from Discord's CDN.".to_owned(),
                inline: false,
            },
        );
        fields.push(
            EmbedField {
                name: "`/help`".to_owned(),
                value: "Summon this help menu!".to_owned(),
                inline: false,
            },
        );
        let mut embeds: Vec<Embed> = Vec::new();
        embeds.push(
            Embed {
                kind: "rich".to_owned(),
                title: "Quizzo Commands".to_owned(),
                description: "Available commands for Quizzo.".to_owned(),
                fields,
            },
        );
        Reply {
            kind: ReplyKind::Message,
            data: Some(ReplyData { content: None, ephemeral: true, embeds: Some(embeds) }),
        }
    }

    /// Responds to a press on a message component: the event goes to the
    /// task registered for `origin`, whose registration ends with it.
    pub fn on_msg_interaction(&mut self, origin: u64, user: u64, choice: usize) -> (out: Reply)
        ensures
            is_acknowledgement(out),
            final(self).registered() == after_removal(old(self).registered(), origin),
            final(self).application() == old(self).application(),
    {
        let _found = self.quizzes.dispatch(origin, (user, choice));
        Reply { kind: ReplyKind::Acknowledge, data: None }
    }
}

} // verus!
