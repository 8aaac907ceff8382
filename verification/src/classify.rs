//! Classification of server log lines.
//!
//! A line is tried against four patterns in a fixed order; the first pattern
//! that matches and yields all of its fields decides the record.

use crate::matching::{find_captures, regex_captures};
use vstd::prelude::*;
use vstd::string::*;

verus! {

/// What a server log line reports.
#[derive(Debug, Clone, PartialEq, Eq)]
pub enum LogRecord {
    PlayerJoined { name: String },
    PlayerQuit { name: String },
    AchievementUnlocked { name: String, achievement: String },
    ChatRelay { name: String, body: String },
    Unrecognized,
}

/// The mathematical value of a [`LogRecord`].
pub ghost enum RecordView {
    PlayerJoined { name: Seq<char> },
    PlayerQuit { name: Seq<char> },
    AchievementUnlocked { name: Seq<char>, achievement: Seq<char> },
    ChatRelay { name: Seq<char>, body: Seq<char> },
    Unrecognized,
}

impl View for LogRecord {
    type V = RecordView;

    open spec fn view(&self) -> RecordView {
        match self {
            LogRecord::PlayerJoined { name } => RecordView::PlayerJoined { name: name@ },
            LogRecord::PlayerQuit { name } => RecordView::PlayerQuit { name: name@ },
            LogRecord::AchievementUnlocked { name, achievement } => RecordView::AchievementUnlocked {
                name: name@,
                achievement: achievement@,
            },
            LogRecord::ChatRelay { name, body } => RecordView::ChatRelay { name: name@, body: body@ },
            LogRecord::Unrecognized => RecordView::Unrecognized,
        }
    }
}

impl DeepView for LogRecord {
    type V = RecordView;

    open spec fn deep_view(&self) -> RecordView {
        self@
    }
}

/// A player logging in. The name is the shortest text after the server-thread
/// marker that is followed by an optional bracketed address and ` logged in`.
pub const JOIN_PATTERN: &'static str =
    r".*\[Server thread/INFO\]: (.*?)(?:\[[^\]]*\])? logged in with entity id .* at .*";

/// A player leaving.
pub const QUIT_PATTERN: &'static str = r".*\[Server thread/INFO\]: (.*) left the game";

/// A player completing an advancement.
pub const ACHIEVEMENT_PATTERN: &'static str =
    r".*\[Server thread/INFO\]: (.*) has made the advancement \[(.*)\]";

/// A player speaking in the game chat.
pub const CHAT_PATTERN: &'static str = r".*\[Server thread/INFO\]: <([^ \]]*)> (.*)";

/// The four kinds of line that the classifier recognises, in order of precedence.
#[derive(Debug, Clone, Copy, PartialEq, Eq)]
pub enum LineKind {
    Join,
    Quit,
    Achievement,
    Chat,
}

/// The text of group `index`, where the match has such a group and it took part.
pub open spec fn group_text(groups: Seq<Option<Seq<char>>>, index: int) -> Option<Seq<char>> {
    if 0 <= index < groups.len() {
        groups[index]
    } else {
        None
    }
}

/// A copy of the text of group `index`, where the match has such a group and it
/// took part.
fn group(groups: &Vec<Option<String>>, index: usize) -> (text: Option<String>)
    ensures
        text.deep_view() == group_text(groups.deep_view(), index as int),
{
    if index < groups.len() {
        match &groups[index] {
            Some(text) => Some(text.clone()),
            None => None,
        }
    } else {
        None
    }
}

impl LineKind {
    /// The pattern that lines of this kind match.
    pub open spec fn pattern_spec(self) -> Seq<char> {
        match self {
            LineKind::Join => JOIN_PATTERN@,
            LineKind::Quit => QUIT_PATTERN@,
            LineKind::Achievement => ACHIEVEMENT_PATTERN@,
            LineKind::Chat => CHAT_PATTERN@,
        }
    }

    /// The record that a match of this kind's pattern stands for, or `None`
    /// where a group that the record needs is missing from the match.
    pub open spec fn extract_spec(self, groups: Seq<Option<Seq<char>>>) -> Option<RecordView> {
        match self {
            LineKind::Join => match group_text(groups, 1) {
                Some(name) => Some(RecordView::PlayerJoined { name }),
                None => None,
            },
            LineKind::Quit => match group_text(groups, 1) {
                Some(name) => Some(RecordView::PlayerQuit { name }),
                None => None,
            },
            LineKind::Achievement => match (group_text(groups, 1), group_text(groups, 2)) {
                (Some(name), Some(achievement)) => Some(
                    RecordView::AchievementUnlocked { name, achievement },
                ),
                _ => None,
            },
            LineKind::Chat => match (group_text(groups, 1), group_text(groups, 2)) {
                (Some(name), Some(body)) => Some(RecordView::ChatRelay { name, body }),
                _ => None,
            },
        }
    }

    /// The record that `line` gives under this kind alone.
    pub open spec fn attempt_spec(self, line: Seq<char>) -> Option<RecordView> {
        match regex_captures(self.pattern_spec(), line) {
            Some(groups) => self.extract_spec(groups),
            None => None,
        }
    }

    /// The pattern that lines of this kind match.
    pub fn pattern(&self) -> (pattern: &'static str)
        ensures
            pattern@ == self.pattern_spec(),
    {
        match self {
            LineKind::Join => JOIN_PATTERN,
            LineKind::Quit => QUIT_PATTERN,
            LineKind::Achievement => ACHIEVEMENT_PATTERN,
            LineKind::Chat => CHAT_PATTERN,
        }
    }

    /// Tries `line` against this kind's pattern alone.
    pub fn attempt(&self, line: &str) -> (record: Option<LogRecord>)
        ensures
            record.deep_view() == self.attempt_spec(line@),
    {
        match find_captures(self.pattern(), line) {
            Some(groups) => self.extract(&groups),
            None => None,
        }
    }

    /// Builds the record of this kind from the capture groups of a match.
    pub fn extract(&self, groups: &Vec<Option<String>>) -> (record: Option<LogRecord>)
        ensures
            record.deep_view() == self.extract_spec(groups.deep_view()),
    {
        match self {
            LineKind::Join => match group(groups, 1) {
                Some(name) => Some(LogRecord::PlayerJoined { name }),
                None => None,
            },
            LineKind::Quit => match group(groups, 1) {
                Some(name) => Some(LogRecord::PlayerQuit { name }),
                None => None,
            },
            LineKind::Achievement => match (group(groups, 1), group(groups, 2)) {
                (Some(name), Some(achievement)) => Some(
                    LogRecord::AchievementUnlocked { name, achievement },
                ),
                _ => None,
            },
            LineKind::Chat => match (group(groups, 1), group(groups, 2)) {
                (Some(name), Some(body)) => Some(LogRecord::ChatRelay { name, body }),
                _ => None,
            },
        }
    }
}

/// The record of `line`: that of the first kind, in the order join, quit,
/// achievement, chat, whose pattern matches with all its fields; `Unrecognized`
/// where none does.
pub open spec fn classify_spec(line: Seq<char>) -> RecordView {
    if let Some(record) = LineKind::Join.attempt_spec(line) {
        record
    } else if let Some(record) = LineKind::Quit.attempt_spec(line) {
        record
    } else if let Some(record) = LineKind::Achievement.attempt_spec(line) {
        record
    } else if let Some(record) = LineKind::Chat.attempt_spec(line) {
        record
    } else {
        RecordView::Unrecognized
    }
}

/// Classifies one line of the server log. Every line has a record; a line
/// that fits no pattern is `Unrecognized`.
pub fn classify(line: &str) -> (record: LogRecord)
    ensures
        record@ == classify_spec(line@),
{
    if let Some(record) = LineKind::Join.attempt(line) {
        return record;
    }
    if let Some(record) = LineKind::Quit.attempt(line) {
        return record;
    }
    if let Some(record) = LineKind::Achievement.attempt(line) {
        return record;
    }
    if let Some(record) = LineKind::Chat.attempt(line) {
        return record;
    }
    LogRecord::Unrecognized
}

/// A line that the join pattern matches is a join, whatever the later patterns
/// would make of it, and the player's name is the text of the pattern's group.
pub proof fn lemma_join_line_is_join(line: Seq<char>, groups: Seq<Option<Seq<char>>>, name: Seq<char>)
    requires
        regex_captures(JOIN_PATTERN@, line) == Some(groups),
        group_text(groups, 1) == Some(name),
    ensures
        classify_spec(line) == (RecordView::PlayerJoined { name }),
{
}

/// A line that yields no join and that the quit pattern matches is a quit,
/// and the player's name is the text of the pattern's group.
pub proof fn lemma_quit_line_is_quit(line: Seq<char>, groups: Seq<Option<Seq<char>>>, name: Seq<char>)
    requires
        LineKind::Join.attempt_spec(line) is None,
        regex_captures(QUIT_PATTERN@, line) == Some(groups),
        group_text(groups, 1) == Some(name),
    ensures
        classify_spec(line) == (RecordView::PlayerQuit { name }),
{
}

} // verus!
