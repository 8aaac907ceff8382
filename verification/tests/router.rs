use mc_sync::classify::LogRecord;
use mc_sync::event::{Action, Channel, Event};
use mc_sync::router::{announce, Router, ONLINE_COMMAND, RELAY_IDENTITY};

const GENERAL: Channel = Channel(11);
const SERVER: Channel = Channel(22);
const ELSEWHERE: Channel = Channel(33);

fn router() -> Router {
    Router::new(GENERAL, SERVER)
}

fn chat(author: &str, body: &str) -> Event {
    Event::ChatMessage { author: author.to_string(), body: body.to_string(), channel: ELSEWHERE }
}

fn process(text: &str) -> Event {
    Event::ProcessLine { text: text.to_string() }
}

fn console(text: &str) -> Event {
    Event::ConsoleLine { text: text.to_string() }
}

fn join_line(name: &str) -> String {
    format!("[12:00:00] [Server thread/INFO]: {} logged in with entity id 5 at (1.0, 2.0, 3.0)", name)
}

fn quit_line(name: &str) -> String {
    format!("[12:00:00] [Server thread/INFO]: {} left the game", name)
}

fn send(channel: Channel, text: &str) -> Action {
    Action::SendChat { channel, text: text.to_string() }
}

fn mirrored(line: &str) -> Vec<Action> {
    vec![Action::EchoConsole { text: format!("{}\n", line) }, send(SERVER, line)]
}

#[test]
fn reserved_words() {
    assert_eq!(RELAY_IDENTITY, "mc-sync");
    assert_eq!(ONLINE_COMMAND, "!online");
}

#[test]
fn online_with_nobody_present() {
    let mut router = router();
    assert_eq!(router.handle(chat("Alice", "!online")), vec![send(ELSEWHERE, "0 online: ")]);
}

#[test]
fn online_lists_players_in_joining_order() {
    let mut router = router();
    router.handle(process(&join_line("Alice")));
    router.handle(process(&join_line("Bob")));
    assert_eq!(
        router.handle(chat("Carol", "!online")),
        vec![send(ELSEWHERE, "2 online: Alice, Bob")]
    );
}

#[test]
fn online_is_answered_where_it_was_asked() {
    let mut router = router();
    let asked = Event::ChatMessage {
        author: "Carol".to_string(),
        body: "!online".to_string(),
        channel: GENERAL,
    };
    assert_eq!(router.handle(asked), vec![send(GENERAL, "0 online: ")]);
}

#[test]
fn online_may_stand_in_white_space() {
    let mut router = router();
    assert_eq!(router.handle(chat("Alice", "  !online\n")), vec![send(ELSEWHERE, "0 online: ")]);
}

#[test]
fn online_with_more_words_is_chat() {
    let mut router = router();
    assert_eq!(
        router.handle(chat("Alice", "!online please")),
        vec![Action::FeedProcess { text: "/say [Alice]: !online please\n".to_string() }]
    );
}

#[test]
fn own_messages_are_dropped() {
    let mut router = router();
    assert_eq!(router.handle(chat("mc-sync", "hello")), Vec::<Action>::new());
    assert_eq!(router.handle(chat("mc-sync", "!online")), Vec::<Action>::new());
    assert_eq!(router.handle(chat("mc-sync", "")), Vec::<Action>::new());
}

#[test]
fn similar_authors_are_not_dropped() {
    let mut router = router();
    assert_eq!(
        router.handle(chat("mc-sync2", "hello")),
        vec![Action::FeedProcess { text: "/say [mc-sync2]: hello\n".to_string() }]
    );
    assert_eq!(
        router.handle(chat("MC-SYNC", "hello")),
        vec![Action::FeedProcess { text: "/say [MC-SYNC]: hello\n".to_string() }]
    );
}

#[test]
fn chat_is_said_in_the_game() {
    let mut router = router();
    assert_eq!(
        router.handle(chat("Alice", "hello there ")),
        vec![Action::FeedProcess { text: "/say [Alice]: hello there \n".to_string() }]
    );
    assert_eq!(router.snapshot(), (0, String::new()));
}

#[test]
fn join_line_is_announced() {
    let mut router = router();
    let line =
        "[12:00:00] [Server thread/INFO]: Steve logged in with entity id 5 at (1.0, 2.0, 3.0)";
    let mut expected = mirrored(line);
    expected.push(send(GENERAL, "Steve joined the server!"));
    assert_eq!(router.handle(process(line)), expected);
    assert_eq!(router.snapshot(), (1, "Steve".to_string()));
}

#[test]
fn chat_line_is_relayed() {
    let mut router = router();
    let line = "[12:00:00] [Server thread/INFO]: <Steve> hello world";
    let mut expected = mirrored(line);
    expected.push(send(GENERAL, "[Steve]: hello world"));
    assert_eq!(router.handle(process(line)), expected);
    assert_eq!(router.snapshot(), (0, String::new()));
}

#[test]
fn quit_line_is_announced() {
    let mut router = router();
    router.handle(process(&join_line("Steve")));
    let line = quit_line("Steve");
    let mut expected = mirrored(&line);
    expected.push(send(GENERAL, "Steve left the server."));
    assert_eq!(router.handle(process(&line)), expected);
    assert_eq!(router.snapshot(), (0, String::new()));
}

#[test]
fn advancement_line_is_announced() {
    let mut router = router();
    let line = "[12:06:00] [Server thread/INFO]: Alex has made the advancement [Stone Age]";
    let mut expected = mirrored(line);
    expected.push(send(GENERAL, "Alex unlocked achievement [Stone Age]!"));
    assert_eq!(router.handle(process(line)), expected);
}

#[test]
fn unrecognized_line_is_only_mirrored() {
    let mut router = router();
    let line = "[12:00:00] [Server thread/INFO]: Done (3.2s)! For help, type \"help\"";
    assert_eq!(router.handle(process(line)), mirrored(line));
    assert_eq!(router.handle(process("")), mirrored(""));
}

#[test]
fn every_process_line_is_mirrored_once() {
    let lines = [
        join_line("Steve"),
        quit_line("Steve"),
        "[12:06:00] [Server thread/INFO]: Alex has made the advancement [Stone Age]".to_string(),
        "[12:00:00] [Server thread/INFO]: <Steve> hello world".to_string(),
        "plain".to_string(),
    ];
    let mut router = router();
    for line in lines {
        let actions = router.handle(process(&line));
        let echoes: Vec<&Action> =
            actions.iter().filter(|a| matches!(a, Action::EchoConsole { .. })).collect();
        assert_eq!(echoes, vec![&Action::EchoConsole { text: format!("{}\n", line) }]);
        let copies: Vec<&Action> = actions
            .iter()
            .filter(|a| matches!(a, Action::SendChat { channel, .. } if *channel == SERVER))
            .collect();
        assert_eq!(copies, vec![&send(SERVER, &line)]);
        assert!(!actions.iter().any(|a| matches!(a, Action::FeedProcess { .. })));
    }
}

#[test]
fn join_counts_once() {
    let mut router = router();
    router.handle(process(&join_line("Alice")));
    assert_eq!(router.snapshot().0, 1);
    router.handle(process(&join_line("Alice")));
    assert_eq!(router.snapshot().0, 1);
    router.handle(process(&join_line("Bob")));
    assert_eq!(router.snapshot().0, 2);
}

#[test]
fn quit_counts_once() {
    let mut router = router();
    router.handle(process(&join_line("Alice")));
    router.handle(process(&join_line("Bob")));
    router.handle(process(&quit_line("Alice")));
    assert_eq!(router.snapshot(), (1, "Bob".to_string()));
    router.handle(process(&quit_line("Alice")));
    assert_eq!(router.snapshot(), (1, "Bob".to_string()));
    router.handle(process(&quit_line("Nobody")));
    assert_eq!(router.snapshot(), (1, "Bob".to_string()));
}

#[test]
fn console_line_goes_to_the_process() {
    let mut router = router();
    assert_eq!(
        router.handle(console("say hi")),
        vec![Action::FeedProcess { text: "say hi\n".to_string() }]
    );
    assert_eq!(router.handle(console("")), vec![Action::FeedProcess { text: "\n".to_string() }]);
    assert_eq!(
        router.handle(console("!online")),
        vec![Action::FeedProcess { text: "!online\n".to_string() }]
    );
    assert_eq!(router.snapshot(), (0, String::new()));
}

#[test]
fn console_line_is_not_classified() {
    let mut router = router();
    let line = join_line("Steve");
    assert_eq!(
        router.handle(console(&line)),
        vec![Action::FeedProcess { text: format!("{}\n", line) }]
    );
    assert_eq!(router.snapshot().0, 0);
}

#[test]
fn handlers_agree_with_handle() {
    let mut one = router();
    let mut other = router();
    let line = join_line("Steve");
    assert_eq!(one.handle(process(&line)), other.handle_process_line(&line));
    assert_eq!(one.handle(console("stop")), other.handle_console_line("stop"));
    assert_eq!(
        one.handle(chat("Alice", "!online")),
        other.handle_chat_message("Alice", "!online", ELSEWHERE)
    );
    assert_eq!(one.snapshot(), other.snapshot());
}

#[test]
fn record_is_taken_in_as_given() {
    let mut router = router();
    let joined = LogRecord::PlayerJoined { name: "Steve".to_string() };
    let mut expected = mirrored("anything");
    expected.push(send(GENERAL, "Steve joined the server!"));
    assert_eq!(router.handle_record("anything", &joined), expected);
    assert_eq!(router.snapshot(), (1, "Steve".to_string()));
    assert_eq!(router.handle_record("more", &LogRecord::Unrecognized), mirrored("more"));
    let left = LogRecord::PlayerQuit { name: "Steve".to_string() };
    router.handle_record("bye", &left);
    assert_eq!(router.snapshot(), (0, String::new()));
}

#[test]
fn one_channel_for_both_hears_both() {
    let mut router = Router::new(SERVER, SERVER);
    let line = quit_line("Steve");
    assert_eq!(
        router.handle(process(&line)),
        vec![
            Action::EchoConsole { text: format!("{}\n", line) },
            send(SERVER, &line),
            send(SERVER, "Steve left the server."),
        ]
    );
}

#[test]
fn announcements_wording() {
    let name = "Steve".to_string();
    assert_eq!(
        announce(&LogRecord::PlayerJoined { name: name.clone() }),
        Some("Steve joined the server!".to_string())
    );
    assert_eq!(
        announce(&LogRecord::PlayerQuit { name: name.clone() }),
        Some("Steve left the server.".to_string())
    );
    assert_eq!(
        announce(&LogRecord::AchievementUnlocked {
            name: name.clone(),
            achievement: "Stone Age".to_string(),
        }),
        Some("Steve unlocked achievement [Stone Age]!".to_string())
    );
    assert_eq!(
        announce(&LogRecord::ChatRelay { name, body: "hello world".to_string() }),
        Some("[Steve]: hello world".to_string())
    );
    assert_eq!(announce(&LogRecord::Unrecognized), None);
}

#[test]
fn router_keeps_its_channels() {
    let router = router();
    assert_eq!(router.general(), GENERAL);
    assert_eq!(router.server(), SERVER);
    assert_eq!(router.snapshot(), (0, String::new()));
}
