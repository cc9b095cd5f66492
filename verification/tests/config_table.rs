use third_eye::config::{name_order, Config, FeedConfig, NameOrder};

fn conf(url: &str, title: &str) -> FeedConfig {
    FeedConfig { url: url.to_string(), title: title.to_string() }
}

#[test]
fn new_table_is_empty() {
    let config = Config::new();
    assert_eq!(config.len(), 0);
    assert!(config.is_empty());
    assert!(config.nth(0).is_none());
    assert!(config.get("any").is_none());
    assert!(config.keys().is_empty());
}

#[test]
fn insert_keeps_rows_in_name_order() {
    let mut config = Config::new();
    assert!(config.insert("mid".to_string(), conf("u2", "t2")).is_none());
    assert!(config.insert("zeta".to_string(), conf("u3", "t3")).is_none());
    assert!(config.insert("alpha".to_string(), conf("u1", "t1")).is_none());
    assert!(config.insert("beta".to_string(), conf("u4", "t4")).is_none());
    assert_eq!(config.len(), 4);
    assert!(!config.is_empty());
    assert_eq!(
        config.keys(),
        vec!["alpha".to_string(), "beta".to_string(), "mid".to_string(), "zeta".to_string()]
    );
    assert_eq!(config.nth(0).unwrap().name, "alpha");
    assert_eq!(config.nth(0).unwrap().conf.url, "u1");
    assert_eq!(config.nth(3).unwrap().name, "zeta");
    assert!(config.nth(4).is_none());
}

#[test]
fn insert_under_taken_name_replaces_and_returns_former() {
    let mut config = Config::new();
    config.insert("a".to_string(), conf("u1", "t1"));
    config.insert("b".to_string(), conf("u2", "t2"));
    let former = config.insert("a".to_string(), conf("u9", "t9")).expect("former settings");
    assert_eq!(former.url, "u1");
    assert_eq!(former.title, "t1");
    assert_eq!(config.len(), 2);
    assert_eq!(config.get("a").unwrap().url, "u9");
    assert_eq!(config.get("a").unwrap().title, "t9");
    assert_eq!(config.get("b").unwrap().url, "u2");
    assert_eq!(config.keys(), vec!["a".to_string(), "b".to_string()]);
}

#[test]
fn get_finds_by_name_only() {
    let mut config = Config::new();
    config.insert("news".to_string(), conf("http://n", "News"));
    config.insert("blog".to_string(), conf("http://b", "Blog"));
    assert_eq!(config.get("news").unwrap().title, "News");
    assert_eq!(config.get("blog").unwrap().url, "http://b");
    assert!(config.get("new").is_none());
    assert!(config.get("newsx").is_none());
    assert!(config.get("").is_none());
}

#[test]
fn names_order_by_bytes() {
    assert_eq!(name_order("a", "b"), NameOrder::Before);
    assert_eq!(name_order("b", "a"), NameOrder::After);
    assert_eq!(name_order("a", "a"), NameOrder::Same);
    assert_eq!(name_order("", ""), NameOrder::Same);
    assert_eq!(name_order("", "a"), NameOrder::Before);
    assert_eq!(name_order("ab", "a"), NameOrder::After);
    assert_eq!(name_order("a", "ab"), NameOrder::Before);
    assert_eq!(name_order("B", "a"), NameOrder::Before);
    assert_eq!(name_order("z", "\u{e9}"), NameOrder::Before);
    assert_eq!(name_order("\u{e9}", "\u{4e2d}"), NameOrder::Before);
    assert_eq!(name_order("\u{1f600}", "\u{ffff}"), NameOrder::After);
}

#[test]
fn order_agrees_with_the_standard_string_order() {
    let names = ["", "a", "A", "ab", "b", "feed", "feeds", "\u{e9}t\u{e9}", "\u{4e2d}", "~", "0", "10", "9"];
    for x in names.iter() {
        for y in names.iter() {
            let expected = if x < y {
                NameOrder::Before
            } else if x == y {
                NameOrder::Same
            } else {
                NameOrder::After
            };
            assert_eq!(name_order(x, y), expected);
        }
    }
}

#[test]
fn table_order_matches_a_sorted_list() {
    let names = ["pear", "apple", "fig", "Apple", "kiwi", "fig", "\u{e9}clair", "10", "9"];
    let mut config = Config::new();
    for n in names.iter() {
        config.insert(n.to_string(), conf(n, n));
    }
    let mut expected: Vec<String> = names.iter().map(|n| n.to_string()).collect();
    expected.sort();
    expected.dedup();
    assert_eq!(config.keys(), expected);
    assert_eq!(config.len(), 8);
}
