use third_eye::app::{on_event, Action, App, FetchError, Message, Screen};
use third_eye::ast::{normalize, render_item, Ast};
use third_eye::config::{Config, FeedConfig};
use third_eye::rss::{Feed, Item, Rss};
use third_eye::tui::{Event, KeyCode, KeyEvent, KeyEventKind};

fn feed_conf(url: &str, title: &str) -> FeedConfig {
    FeedConfig { url: url.to_string(), title: title.to_string() }
}

fn table(names: &[&str]) -> Config {
    let mut config = Config::new();
    for name in names {
        let url = format!("https://example.org/{}.xml", name);
        config.insert(name.to_string(), feed_conf(&url, name));
    }
    config
}

fn item(title: &str, link: &str) -> Item {
    Item { title: title.to_string(), link: link.to_string() }
}

fn news() -> Rss {
    Rss {
        channel: Feed { title: "News".to_string(), item: vec![item("T1", "L1"), item("T2", "L2")] },
    }
}

fn press(code: KeyCode) -> Event {
    Event::Key(KeyEvent { code, kind: KeyEventKind::Press })
}

fn lines_of(ast: &Ast) -> (String, Vec<String>) {
    match ast {
        Ast::Block(title, inner) => match &**inner {
            Ast::List(lines) => (title.clone(), lines.clone()),
            other => panic!("expected a list, found {:?}", other),
        },
        other => panic!("expected a block, found {:?}", other),
    }
}

#[test]
fn starts_at_home_on_first_row() {
    let app = App::new(table(&["A", "B", "C"]));
    assert!(matches!(app.screen(), Screen::Home));
    assert_eq!(app.selected(), Some(0));
    assert_eq!(app.status(), None);
    assert_eq!(app.config().len(), 3);
}

#[test]
fn three_downs_over_three_feeds_come_full_circle() {
    let mut app = App::new(table(&["A", "B", "C"]));
    assert!(app.handle_message(Message::Down).is_none());
    assert_eq!(app.selected(), Some(1));
    assert!(app.handle_message(Message::Down).is_none());
    assert_eq!(app.selected(), Some(2));
    assert!(app.handle_message(Message::Down).is_none());
    assert_eq!(app.selected(), Some(0));
    assert_eq!(app.config().nth(0).unwrap().name, "A");
}

#[test]
fn up_from_first_row_wraps_to_last() {
    let mut app = App::new(table(&["A", "B", "C", "D"]));
    app.handle_message(Message::Up);
    assert_eq!(app.selected(), Some(3));
    app.handle_message(Message::Down);
    assert_eq!(app.selected(), Some(0));
    app.handle_message(Message::Up);
    app.handle_message(Message::Up);
    assert_eq!(app.selected(), Some(2));
}

#[test]
fn selection_stays_in_range_over_a_long_walk() {
    let mut app = App::new(table(&["a", "b", "c", "d", "e"]));
    let mut expected: usize = 0;
    for round in 0..40usize {
        if round % 3 == 0 {
            app.handle_message(Message::Up);
            expected = (expected + 5 - 1) % 5;
        } else {
            app.handle_message(Message::Down);
            expected = (expected + 1) % 5;
        }
        assert_eq!(app.selected(), Some(expected));
    }
}

#[test]
fn single_feed_navigation_stays_put() {
    let mut app = App::new(table(&["only"]));
    app.handle_message(Message::Down);
    assert_eq!(app.selected(), Some(0));
    app.handle_message(Message::Up);
    assert_eq!(app.selected(), Some(0));
}

#[test]
fn empty_table_ignores_navigation_and_select() {
    let mut app = App::new(Config::new());
    assert_eq!(app.selected(), None);
    assert!(app.handle_message(Message::Down).is_none());
    assert!(app.handle_message(Message::Up).is_none());
    assert!(app.handle_message(Message::SetFeed).is_none());
    assert_eq!(app.selected(), None);
    assert!(matches!(app.screen(), Screen::Home));
    assert_eq!(app.status(), None);
}

#[test]
fn select_starts_loading_and_asks_for_highlighted_feed() {
    let mut app = App::new(table(&["A", "B", "C"]));
    app.handle_message(Message::Down);
    let req = app.handle_message(Message::SetFeed).expect("a fetch request");
    assert_eq!(req.name, "B");
    assert_eq!(req.url, "https://example.org/B.xml");
    match app.screen() {
        Screen::Loading(name) => assert_eq!(name, "B"),
        other => panic!("expected loading, found {:?}", other),
    }
    assert_eq!(app.selected(), Some(1));
}

#[test]
fn navigation_is_ignored_away_from_home() {
    let mut app = App::new(table(&["A", "B", "C"]));
    app.handle_message(Message::SetFeed);
    app.handle_message(Message::Down);
    app.handle_message(Message::Up);
    app.handle_message(Message::Up);
    assert_eq!(app.selected(), Some(0));
    assert!(matches!(app.screen(), Screen::Loading(_)));
    app.handle_message(Message::GotFeed(Ok(news())));
    app.handle_message(Message::Down);
    assert_eq!(app.selected(), Some(0));
    assert!(matches!(app.screen(), Screen::Content(_)));
}

#[test]
fn fetched_feed_is_shown_in_order() {
    let mut app = App::new(table(&["A", "B"]));
    app.handle_message(Message::SetFeed);
    assert!(app.handle_message(Message::GotFeed(Ok(news()))).is_none());
    match app.screen() {
        Screen::Content(ast) => {
            let (title, lines) = lines_of(ast);
            assert_eq!(title, "News");
            assert_eq!(lines, vec!["* T1: L1".to_string(), "* T2: L2".to_string()]);
        }
        other => panic!("expected content, found {:?}", other),
    }
}

#[test]
fn normalize_news_gives_titled_block_with_two_lines() {
    let ast = normalize(&news());
    let (title, lines) = lines_of(&ast);
    assert_eq!(title, "News");
    assert_eq!(lines.len(), 2);
    assert_eq!(lines[0], "* T1: L1");
    assert_eq!(lines[1], "* T2: L2");
}

#[test]
fn normalize_feed_without_items_gives_empty_list() {
    let rss = Rss { channel: Feed { title: "Quiet".to_string(), item: vec![] } };
    let (title, lines) = lines_of(&normalize(&rss));
    assert_eq!(title, "Quiet");
    assert!(lines.is_empty());
}

#[test]
fn render_item_joins_title_and_link() {
    assert_eq!(render_item(&item("Hello", "http://x/1")), "* Hello: http://x/1");
    assert_eq!(render_item(&item("", "")), "* : ");
    assert_eq!(render_item(&item("a: b", "c")), "* a: b: c");
}

#[test]
fn back_from_loading_and_content_returns_home() {
    let mut app = App::new(table(&["A", "B", "C"]));
    app.handle_message(Message::Down);
    app.handle_message(Message::Down);
    app.handle_message(Message::SetFeed);
    assert!(app.handle_message(Message::Back).is_none());
    assert!(matches!(app.screen(), Screen::Home));
    assert_eq!(app.selected(), Some(2));

    app.handle_message(Message::SetFeed);
    app.handle_message(Message::GotFeed(Ok(news())));
    app.handle_message(Message::Back);
    assert!(matches!(app.screen(), Screen::Home));
    assert_eq!(app.selected(), Some(2));
}

#[test]
fn transport_failure_returns_home_with_report() {
    let mut app = App::new(table(&["A", "B"]));
    app.handle_message(Message::Down);
    app.handle_message(Message::SetFeed);
    assert!(app.handle_message(Message::GotFeed(Err(FetchError::Transport))).is_none());
    assert!(matches!(app.screen(), Screen::Home));
    assert_eq!(app.status(), Some(FetchError::Transport));
    assert_eq!(app.selected(), Some(1));
}

#[test]
fn parse_failure_returns_home_with_report() {
    let mut app = App::new(table(&["A"]));
    app.handle_message(Message::SetFeed);
    app.handle_message(Message::GotFeed(Err(FetchError::Parse)));
    assert!(matches!(app.screen(), Screen::Home));
    assert_eq!(app.status(), Some(FetchError::Parse));
}

#[test]
fn report_is_dismissed_by_back_and_by_a_new_fetch() {
    let mut app = App::new(table(&["A", "B"]));
    app.handle_message(Message::SetFeed);
    app.handle_message(Message::GotFeed(Err(FetchError::Parse)));
    app.handle_message(Message::Down);
    assert_eq!(app.status(), Some(FetchError::Parse));
    app.handle_message(Message::Back);
    assert_eq!(app.status(), None);

    app.handle_message(Message::SetFeed);
    app.handle_message(Message::GotFeed(Err(FetchError::Transport)));
    assert_eq!(app.status(), Some(FetchError::Transport));
    app.handle_message(Message::SetFeed);
    assert_eq!(app.status(), None);
    assert!(matches!(app.screen(), Screen::Loading(_)));
}

#[test]
fn failure_reports_have_their_words() {
    assert_eq!(FetchError::Transport.describe(), "Failed to fetch feed");
    assert_eq!(FetchError::Parse.describe(), "Couldn't parse rss feed");
}

#[test]
fn handle_all_takes_messages_in_order() {
    let mut app = App::new(table(&["A", "B", "C"]));
    let msgs = vec![
        Message::Down,
        Message::SetFeed,
        Message::Back,
        Message::Up,
        Message::Up,
        Message::SetFeed,
        Message::GotFeed(Ok(news())),
    ];
    let reqs = app.handle_all(&msgs);
    assert_eq!(reqs.len(), 2);
    assert_eq!(reqs[0].name, "B");
    assert_eq!(reqs[0].url, "https://example.org/B.xml");
    assert_eq!(reqs[1].name, "C");
    assert_eq!(app.selected(), Some(2));
    assert!(matches!(app.screen(), Screen::Content(_)));
}

#[test]
fn handle_all_of_nothing_changes_nothing() {
    let mut app = App::new(table(&["A", "B"]));
    app.handle_message(Message::Down);
    let reqs = app.handle_all(&Vec::new());
    assert!(reqs.is_empty());
    assert_eq!(app.selected(), Some(1));
    assert!(matches!(app.screen(), Screen::Home));
}

#[test]
fn key_map_follows_the_fixed_bindings() {
    assert!(matches!(on_event(press(KeyCode::Char('k'))), Action::Send(Message::Up)));
    assert!(matches!(on_event(press(KeyCode::Up)), Action::Send(Message::Up)));
    assert!(matches!(on_event(press(KeyCode::Char('j'))), Action::Send(Message::Down)));
    assert!(matches!(on_event(press(KeyCode::Down)), Action::Send(Message::Down)));
    assert!(matches!(on_event(press(KeyCode::Enter)), Action::Send(Message::SetFeed)));
    assert!(matches!(on_event(press(KeyCode::Char('b'))), Action::Send(Message::Back)));
    assert!(matches!(on_event(press(KeyCode::Char('q'))), Action::Exit));
}

#[test]
fn unmapped_keys_do_nothing() {
    assert!(matches!(on_event(press(KeyCode::Char('x'))), Action::Idle));
    assert!(matches!(on_event(press(KeyCode::Char('K'))), Action::Idle));
    assert!(matches!(on_event(press(KeyCode::Char('Q'))), Action::Idle));
    assert!(matches!(on_event(press(KeyCode::Other)), Action::Idle));
}

#[test]
fn loop_events_map_to_their_actions() {
    assert!(matches!(on_event(Event::Render), Action::Draw));
    assert!(matches!(on_event(Event::Quit), Action::Exit));
    assert!(matches!(on_event(Event::Tick), Action::Idle));
    assert!(matches!(on_event(Event::Error), Action::Idle));
}
