//! What comes into the bridge and what it asks to be done.

use vstd::prelude::*;

verus! {

/// A handle to a chat channel. The bridge only hands it on.
#[derive(Debug, Clone, Copy, PartialEq, Eq)]
pub struct Channel(pub u64);

/// Something that happened at one of the three sources.
#[derive(Debug, Clone)]
pub enum Event {
    /// A message was posted in the chat.
    ChatMessage { author: String, body: String, channel: Channel },
    /// The server process printed a line.
    ProcessLine { text: String },
    /// The operator typed a line at the console.
    ConsoleLine { text: String },
}

/// The mathematical value of an [`Event`].
pub ghost enum EventView {
    ChatMessage { author: Seq<char>, body: Seq<char>, channel: Channel },
    ProcessLine { text: Seq<char> },
    ConsoleLine { text: Seq<char> },
}

impl View for Event {
    type V = EventView;

    open spec fn view(&self) -> EventView {
        match self {
            Event::ChatMessage { author, body, channel } => EventView::ChatMessage {
                author: author@,
                body: body@,
                channel: *channel,
            },
            Event::ProcessLine { text } => EventView::ProcessLine { text: text@ },
            Event::ConsoleLine { text } => EventView::ConsoleLine { text: text@ },
        }
    }
}

/// One output that the bridge asks for. Outputs are to be carried out in the
/// order given, each written through at once; the first that fails ends the
/// bridge.
#[derive(Debug, Clone, PartialEq, Eq)]
pub enum Action {
    /// Write `text` to the standard input of the server process.
    FeedProcess { text: String },
    /// Write `text` to the console.
    EchoConsole { text: String },
    /// Post `text` in the chat channel `channel`.
    SendChat { channel: Channel, text: String },
}

/// The mathematical value of an [`Action`].
pub ghost enum ActionView {
    FeedProcess { text: Seq<char> },
    EchoConsole { text: Seq<char> },
    SendChat { channel: Channel, text: Seq<char> },
}

impl ActionView {
    /// Whether this output posts something in `channel`.
    pub open spec fn posts_in(self, channel: Channel) -> bool {
        self matches ActionView::SendChat { channel: target, .. } && target == channel
    }
}

impl View for Action {
    type V = ActionView;

    open spec fn view(&self) -> ActionView {
        match self {
            Action::FeedProcess { text } => ActionView::FeedProcess { text: text@ },
            Action::EchoConsole { text } => ActionView::EchoConsole { text: text@ },
            Action::SendChat { channel, text } => ActionView::SendChat {
                channel: *channel,
                text: text@,
            },
        }
    }
}

impl DeepView for Action {
    type V = ActionView;

    open spec fn deep_view(&self) -> ActionView {
        self@
    }
}

} // verus!
