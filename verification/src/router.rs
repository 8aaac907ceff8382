//! The router: what the bridge does with each event.
//!
//! The router owns the presence set and the two fixed chat channels. It takes
//! one event at a time and answers with the outputs that the event calls for,
//! in the order in which they are to be carried out. It performs none of them
//! itself.

use crate::classify::{
    classify, classify_spec, group_text, lemma_join_line_is_join, LogRecord, RecordView,
    JOIN_PATTERN,
};
use crate::event::{Action, ActionView, Channel, Event, EventView};
use crate::matching::regex_captures;
use crate::presence::{
    lemma_join_counts_once, lemma_quit_counts_once, with_name, without_name, Presence,
    NAME_SEPARATOR,
};
use crate::text::{decimal, joined, render_decimal, same_text, trim, trimmed_equals};
use vstd::prelude::*;
use vstd::string::*;

verus! {

/// The author under which the bridge itself posts in the chat. Messages from
/// this author are its own and are dropped.
pub const RELAY_IDENTITY: &'static str = "mc-sync";

/// The chat command that asks who is online.
pub const ONLINE_COMMAND: &'static str = "!online";

/// The answer to [`ONLINE_COMMAND`]: the count, then the names.
pub open spec fn online_report(online: Seq<Seq<char>>) -> Seq<char> {
    decimal(online.len()) + " online: "@ + joined(online, NAME_SEPARATOR@)
}

/// The server command that repeats a chat message in the game.
pub open spec fn say_command(author: Seq<char>, body: Seq<char>) -> Seq<char> {
    "/say ["@ + author + "]: "@ + body + "\n"@
}

/// What the chat is told about a record; nothing for a line that was not
/// recognised.
pub open spec fn announcement(record: RecordView) -> Option<Seq<char>> {
    match record {
        RecordView::PlayerJoined { name } => Some(name + " joined the server!"@),
        RecordView::PlayerQuit { name } => Some(name + " left the server."@),
        RecordView::AchievementUnlocked { name, achievement } => Some(
            name + " unlocked achievement ["@ + achievement + "]!"@,
        ),
        RecordView::ChatRelay { name, body } => Some("["@ + name + "]: "@ + body),
        RecordView::Unrecognized => None,
    }
}

/// The names online once `record` has been taken in.
pub open spec fn online_after(online: Seq<Seq<char>>, record: RecordView) -> Seq<Seq<char>> {
    match record {
        RecordView::PlayerJoined { name } => with_name(online, name),
        RecordView::PlayerQuit { name } => without_name(online, name),
        _ => online,
    }
}

/// The mathematical value of a [`Router`].
pub ghost struct RouterView {
    /// The channel that hears the announcements.
    pub general: Channel,
    /// The channel that mirrors the server log.
    pub server: Channel,
    /// The names online, in the order in which they joined.
    pub online: Seq<Seq<char>>,
}

impl RouterView {
    /// The outputs for a chat message.
    pub open spec fn chat_actions(
        self,
        author: Seq<char>,
        body: Seq<char>,
        channel: Channel,
    ) -> Seq<ActionView> {
        if author == RELAY_IDENTITY@ {
            Seq::empty()
        } else if trim(body) == ONLINE_COMMAND@ {
            seq![ActionView::SendChat { channel, text: online_report(self.online) }]
        } else {
            seq![ActionView::FeedProcess { text: say_command(author, body) }]
        }
    }

    /// The outputs for a server line `text` that was classified as `record`.
    pub open spec fn record_actions(self, text: Seq<char>, record: RecordView) -> Seq<ActionView> {
        let mirrored = seq![
            ActionView::EchoConsole { text: text + "\n"@ },
            ActionView::SendChat { channel: self.server, text },
        ];
        match announcement(record) {
            Some(said) => mirrored.push(ActionView::SendChat { channel: self.general, text: said }),
            None => mirrored,
        }
    }

    /// The router once `record` has been taken in.
    pub open spec fn after_record(self, record: RecordView) -> RouterView {
        RouterView { online: online_after(self.online, record), ..self }
    }

    /// The outputs that `event` calls for.
    pub open spec fn actions(self, event: EventView) -> Seq<ActionView> {
        match event {
            EventView::ChatMessage { author, body, channel } => self.chat_actions(
                author,
                body,
                channel,
            ),
            EventView::ProcessLine { text } => self.record_actions(text, classify_spec(text)),
            EventView::ConsoleLine { text } => seq![ActionView::FeedProcess { text: text + "\n"@ }],
        }
    }

    /// The router after `event`.
    pub open spec fn step(self, event: EventView) -> RouterView {
        match event {
            EventView::ProcessLine { text } => self.after_record(classify_spec(text)),
            _ => self,
        }
    }
}

/// The text that the chat is told about `record`.
pub fn announce(record: &LogRecord) -> (said: Option<String>)
    ensures
        said.deep_view() == announcement(record@),
{
    match record {
        LogRecord::PlayerJoined { name } => {
            let mut said = name.clone();
            said.append(" joined the server!");
            Some(said)
        },
        LogRecord::PlayerQuit { name } => {
            let mut said = name.clone();
            said.append(" left the server.");
            Some(said)
        },
        LogRecord::AchievementUnlocked { name, achievement } => {
            let mut said = name.clone();
            said.append(" unlocked achievement [");
            said.append(achievement.as_str());
            said.append("]!");
            Some(said)
        },
        LogRecord::ChatRelay { name, body } => {
            let mut said = String::from_str("[");
            said.append(name.as_str());
            said.append("]: ");
            said.append(body.as_str());
            Some(said)
        },
        LogRecord::Unrecognized => None,
    }
}

/// The state of the bridge: the two fixed channels and who is online.
pub struct Router {
    general: Channel,
    server: Channel,
    online: Presence,
}

impl View for Router {
    type V = RouterView;

    closed spec fn view(&self) -> RouterView {
        RouterView { general: self.general, server: self.server, online: self.online@ }
    }
}

impl Router {
    /// A router for the two channels, with nobody online.
    pub fn new(general: Channel, server: Channel) -> (router: Router)
        ensures
            router@ == (RouterView { general, server, online: Seq::empty() }),
    {
        Router { general, server, online: Presence::new() }
    }

    /// The channel that hears the announcements.
    pub fn general(&self) -> (channel: Channel)
        ensures
            channel == self@.general,
    {
        self.general
    }

    /// The channel that mirrors the server log.
    pub fn server(&self) -> (channel: Channel)
        ensures
            channel == self@.server,
    {
        self.server
    }

    /// The number of players online and their names, as [`Presence::snapshot`]
    /// gives them.
    pub fn snapshot(&self) -> (snapshot: (usize, String))
        ensures
            snapshot.0 == self@.online.len(),
            snapshot.1@ == joined(self@.online, NAME_SEPARATOR@),
            self@.online.no_duplicates(),
    {
        self.online.snapshot()
    }

    /// The outputs for a chat message. A message of the bridge's own is
    /// dropped; the online command is answered in the channel it came from;
    /// anything else is repeated in the game.
    pub fn handle_chat_message(&self, author: &str, body: &str, channel: Channel) -> (actions: Vec<
        Action,
    >)
        ensures
            actions.deep_view() == self@.chat_actions(author@, body@, channel),
    {
        let mut actions: Vec<Action> = Vec::new();
        if same_text(author, RELAY_IDENTITY) {
            assert(actions.deep_view() =~= Seq::<ActionView>::empty());
            return actions;
        }
        if trimmed_equals(body, ONLINE_COMMAND) {
            let (count, names) = self.online.snapshot();
            let mut text = render_decimal(count);
            text.append(" online: ");
            text.append(names.as_str());
            let action = Action::SendChat { channel, text };
            actions.push(action);
            assert(actions.deep_view() =~= seq![action@]);
            return actions;
        }
        let mut text = String::from_str("/say [");
        text.append(author);
        text.append("]: ");
        text.append(body);
        text.append("\n");
        let action = Action::FeedProcess { text };
        actions.push(action);
        assert(actions.deep_view() =~= seq![action@]);
        actions
    }

    /// Takes in the record of a server line and gives the outputs for it: the
    /// line goes to the console and to the server channel as it is, and what
    /// the record announces goes to the general channel.
    pub fn handle_record(&mut self, text: &str, record: &LogRecord) -> (actions: Vec<Action>)
        ensures
            final(self)@ == old(self)@.after_record(record@),
            actions.deep_view() == old(self)@.record_actions(text@, record@),
    {
        let mut echoed = String::from_str(text);
        echoed.append("\n");
        let echo = Action::EchoConsole { text: echoed };
        let mirror = Action::SendChat { channel: self.server, text: String::from_str(text) };
        let mut actions: Vec<Action> = Vec::new();
        actions.push(echo);
        actions.push(mirror);
        assert(actions.deep_view() =~= seq![echo@, mirror@]);
        match record {
            LogRecord::PlayerJoined { name } => self.online.record_join(name.as_str()),
            LogRecord::PlayerQuit { name } => self.online.record_quit(name.as_str()),
            _ => {},
        }
        match announce(record) {
            Some(said) => {
                let send = Action::SendChat { channel: self.general, text: said };
                actions.push(send);
                assert(actions.deep_view() =~= seq![echo@, mirror@].push(send@));
            },
            None => {},
        }
        actions
    }

    /// The outputs for a line that the server process printed.
    pub fn handle_process_line(&mut self, text: &str) -> (actions: Vec<Action>)
        ensures
            final(self)@ == old(self)@.step(EventView::ProcessLine { text: text@ }),
            actions.deep_view() == old(self)@.actions(EventView::ProcessLine { text: text@ }),
    {
        let record = classify(text);
        self.handle_record(text, &record)
    }

    /// The outputs for a line typed at the console: the line goes to the
    /// server process as it is.
    pub fn handle_console_line(&self, text: &str) -> (actions: Vec<Action>)
        ensures
            actions.deep_view() == self@.actions(EventView::ConsoleLine { text: text@ }),
    {
        let mut line = String::from_str(text);
        line.append("\n");
        let action = Action::FeedProcess { text: line };
        let mut actions: Vec<Action> = Vec::new();
        actions.push(action);
        assert(actions.deep_view() =~= seq![action@]);
        actions
    }

    /// Takes in one event and gives the outputs that it calls for, in order.
    pub fn handle(&mut self, event: Event) -> (actions: Vec<Action>)
        ensures
            final(self)@ == old(self)@.step(event@),
            actions.deep_view() == old(self)@.actions(event@),
    {
        match event {
            Event::ChatMessage { author, body, channel } => self.handle_chat_message(
                author.as_str(),
                body.as_str(),
                channel,
            ),
            Event::ProcessLine { text } => self.handle_process_line(text.as_str()),
            Event::ConsoleLine { text } => self.handle_console_line(text.as_str()),
        }
    }
}

/// Whatever the event, the names online stay distinct.
pub proof fn lemma_step_keeps_names_distinct(state: RouterView, event: EventView)
    requires
        state.online.no_duplicates(),
    ensures
        state.step(event).online.no_duplicates(),
        state.step(event).general == state.general,
        state.step(event).server == state.server,
{
    if let EventView::ProcessLine { text } = event {
        match classify_spec(text) {
            RecordView::PlayerJoined { name } => lemma_join_counts_once(state.online, name),
            RecordView::PlayerQuit { name } => lemma_quit_counts_once(state.online, name),
            _ => {},
        }
    }
}

/// A server line that the join pattern matches is taken as a join of the
/// captured name: afterwards the name is online, and the count is one larger
/// unless the name was online already.
pub proof fn lemma_join_line_counts_once(
    state: RouterView,
    line: Seq<char>,
    groups: Seq<Option<Seq<char>>>,
    name: Seq<char>,
)
    requires
        state.online.no_duplicates(),
        regex_captures(JOIN_PATTERN@, line) == Some(groups),
        group_text(groups, 1) == Some(name),
    ensures
        classify_spec(line) == (RecordView::PlayerJoined { name }),
        state.step(EventView::ProcessLine { text: line }).online.contains(name),
        state.step(EventView::ProcessLine { text: line }).online.len() == state.online.len()
            + if state.online.contains(name) {
            0int
        } else {
            1int
        },
{
    lemma_join_line_is_join(line, groups, name);
    lemma_join_counts_once(state.online, name);
}

/// A server line that is a quit makes the count one smaller if the name was
/// online and leaves it as it was if not; afterwards the name is not online.
pub proof fn lemma_quit_line_counts_once(state: RouterView, line: Seq<char>, name: Seq<char>)
    requires
        state.online.no_duplicates(),
        classify_spec(line) == (RecordView::PlayerQuit { name }),
    ensures
        !state.step(EventView::ProcessLine { text: line }).online.contains(name),
        state.step(EventView::ProcessLine { text: line }).online.len() == state.online.len()
            - if state.online.contains(name) {
            1int
        } else {
            0int
        },
{
    lemma_quit_counts_once(state.online, name);
}

/// A chat message from the bridge's own identity calls for no output and
/// changes nothing, whatever it says and wherever it was posted.
pub proof fn lemma_own_message_dropped(state: RouterView, body: Seq<char>, channel: Channel)
    ensures
        state.actions(EventView::ChatMessage { author: RELAY_IDENTITY@, body, channel })
            == Seq::<ActionView>::empty(),
        state.step(EventView::ChatMessage { author: RELAY_IDENTITY@, body, channel }) == state,
{
}

/// No chat message changes who is online, and none is both answered and
/// repeated in the game: it calls for at most one output.
pub proof fn lemma_chat_message_one_output(
    state: RouterView,
    author: Seq<char>,
    body: Seq<char>,
    channel: Channel,
)
    ensures
        state.step(EventView::ChatMessage { author, body, channel }) == state,
        state.actions(EventView::ChatMessage { author, body, channel }).len() <= 1,
        author != RELAY_IDENTITY@ ==> state.actions(
            EventView::ChatMessage { author, body, channel },
        ).len() == 1,
{
}

/// Every server line is echoed to the console, with a line break, and sent
/// to the server channel as it is, whatever its record; at most an
/// announcement follows. The echo is the only output to the console, and
/// nothing goes to the server process.
pub proof fn lemma_process_line_mirrored(state: RouterView, text: Seq<char>)
    ensures
        ({
            let actions = state.actions(EventView::ProcessLine { text });
            &&& 2 <= actions.len() <= 3
            &&& actions[0] == (ActionView::EchoConsole { text: text + "\n"@ })
            &&& actions[1] == (ActionView::SendChat { channel: state.server, text })
            &&& forall|i: int|
                0 <= i < actions.len() ==> (#[trigger] actions[i] is EchoConsole <==> i == 0)
            &&& forall|i: int| 0 <= i < actions.len() ==> !(#[trigger] actions[i] is FeedProcess)
        }),
{
}

/// The copy of a server line is the only output that posts the line itself
/// in the server channel, unless the general channel is the server channel
/// and the announcement reads as the line does.
pub proof fn lemma_process_line_mirrored_once(state: RouterView, text: Seq<char>)
    requires
        state.general != state.server || announcement(classify_spec(text)) != Some(text),
    ensures
        ({
            let actions = state.actions(EventView::ProcessLine { text });
            let copy = ActionView::SendChat { channel: state.server, text };
            forall|i: int| 0 <= i < actions.len() ==> (#[trigger] actions[i] == copy <==> i == 1)
        }),
{
}

/// Where the general channel is not the server channel, or the line is not
/// recognised, the copy of the line is the only output to the server channel.
pub proof fn lemma_server_channel_hears_the_log_only(state: RouterView, text: Seq<char>)
    requires
        state.general != state.server || classify_spec(text) is Unrecognized,
    ensures
        ({
            let actions = state.actions(EventView::ProcessLine { text });
            forall|i: int|
                0 <= i < actions.len() ==> (#[trigger] actions[i].posts_in(state.server) <==> i
                    == 1)
        }),
{
}

/// A console line goes to the server process as it is, with a line break,
/// and calls for nothing else; it changes nothing.
pub proof fn lemma_console_line_forwarded(state: RouterView, text: Seq<char>)
    ensures
        state.actions(EventView::ConsoleLine { text }) == seq![
            ActionView::FeedProcess { text: text + "\n"@ },
        ],
        state.step(EventView::ConsoleLine { text }) == state,
{
}

} // verus!
