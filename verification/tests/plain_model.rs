use third_eye::config::{Config, FeedConfig};
use third_eye::model::{Message, Model, Screen};
use third_eye::rss::{Feed, Item, Rss};

fn feeds(names: &[&str]) -> Config {
    let mut config = Config::new();
    for name in names {
        config.insert(
            name.to_string(),
            FeedConfig { url: format!("http://{}.test/rss", name), title: name.to_string() },
        );
    }
    config
}

fn sample() -> Rss {
    Rss {
        channel: Feed {
            title: "Sample".to_string(),
            item: vec![Item { title: "one".to_string(), link: "http://1".to_string() }],
        },
    }
}

#[test]
fn model_starts_at_home() {
    let model = Model::new(feeds(&["x", "y"]));
    assert!(matches!(model.screen(), Screen::Home));
    assert_eq!(model.selected(), Some(0));
    assert_eq!(model.config().len(), 2);
}

#[test]
fn model_navigation_wraps() {
    let mut model = Model::new(feeds(&["x", "y", "z"]));
    model.handle_message(Message::Up);
    assert_eq!(model.selected(), Some(2));
    model.handle_message(Message::Down);
    assert_eq!(model.selected(), Some(0));
    model.handle_message(Message::Down);
    assert_eq!(model.selected(), Some(1));
}

#[test]
fn model_asks_for_a_known_feed_by_name() {
    let mut model = Model::new(feeds(&["x", "y", "z"]));
    let req = model.handle_message(Message::SetFeed("y".to_string())).expect("a request");
    assert_eq!(req.name, "y");
    assert_eq!(req.url, "http://y.test/rss");
    assert!(matches!(model.screen(), Screen::Home));
    assert_eq!(model.selected(), Some(0));
}

#[test]
fn model_ignores_an_unknown_feed() {
    let mut model = Model::new(feeds(&["x", "y"]));
    assert!(model.handle_message(Message::SetFeed("nope".to_string())).is_none());
    assert!(matches!(model.screen(), Screen::Home));
}

#[test]
fn model_shows_a_feed_and_goes_back() {
    let mut model = Model::new(feeds(&["x", "y"]));
    model.handle_message(Message::Down);
    model.show_feed(sample());
    match model.screen() {
        Screen::Feed(rss) => {
            assert_eq!(rss.channel.title, "Sample");
            assert_eq!(rss.channel.item.len(), 1);
            assert_eq!(rss.channel.item[0].link, "http://1");
        }
        other => panic!("expected a feed, found {:?}", other),
    }
    model.handle_message(Message::Down);
    assert_eq!(model.selected(), Some(1));
    assert!(model.handle_message(Message::Back).is_none());
    assert!(matches!(model.screen(), Screen::Home));
    assert_eq!(model.selected(), Some(1));
}

#[test]
fn model_over_empty_table_is_inert() {
    let mut model = Model::new(Config::new());
    assert_eq!(model.selected(), None);
    assert!(model.handle_message(Message::Down).is_none());
    assert!(model.handle_message(Message::Up).is_none());
    assert!(model.handle_message(Message::SetFeed("x".to_string())).is_none());
    assert_eq!(model.selected(), None);
}
