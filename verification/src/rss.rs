//! The shape of a fetched feed: a titled channel with its items in order.

use vstd::prelude::*;

verus! {

/// One entry of a feed.
#[derive(Debug, Clone)]
pub struct Item {
    pub title: String,
    pub link: String,
}

/// A feed: its title and its entries, in the order in which they were published.
#[derive(Debug, Clone)]
pub struct Feed {
    pub title: String,
    pub item: Vec<Item>,
}

/// The document that wraps a feed.
#[derive(Debug, Clone)]
pub struct Rss {
    pub channel: Feed,
}

/// The mathematical value of an `Item`.
pub struct ItemView {
    pub title: Seq<char>,
    pub link: Seq<char>,
}

/// The mathematical value of a `Feed`.
pub struct FeedView {
    pub title: Seq<char>,
    pub item: Seq<ItemView>,
}

/// The mathematical value of an `Rss` document.
pub struct RssView {
    pub channel: FeedView,
}

impl View for Item {
    type V = ItemView;

    open spec fn view(&self) -> ItemView {
        ItemView { title: self.title@, link: self.link@ }
    }
}

impl View for Feed {
    type V = FeedView;

    open spec fn view(&self) -> FeedView {
        FeedView { title: self.title@, item: Seq::new(self.item@.len(), |i: int| self.item@[i]@) }
    }
}

impl View for Rss {
    type V = RssView;

    open spec fn view(&self) -> RssView {
        RssView { channel: self.channel@ }
    }
}

} // verus!
