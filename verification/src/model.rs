//! The plain variant of the state machine: feeds are asked for by name and
//! a fetched feed is shown as it is, with no screen in between.

use vstd::prelude::*;
use crate::app::{next_index, prev_index, lemma_next_index, lemma_prev_index, FetchRequest, FetchRequestView};
use crate::config::{lookup, sorted, Config, FeedRefView};
use crate::rss::{Rss, RssView};

verus! {

/// What the machine takes in.
#[derive(Debug)]
pub enum Message {
    /// Highlight the next feed.
    Down,
    /// Highlight the feed before.
    Up,
    /// Leave the shown feed for the feed list.
    Back,
    /// Fetch the feed of this name.
    SetFeed(String),
}

/// What is on display.
#[derive(Debug)]
pub enum Screen {
    /// The list of feeds.
    Home,
    /// A fetched feed.
    Feed(Rss),
}

/// The machine: the table of feeds, the highlighted row and the screen.
#[derive(Debug)]
pub struct Model {
    config: Config,
    selected: usize,
    screen: Screen,
}

/// The mathematical value of a `Message`.
pub enum MessageView {
    Down,
    Up,
    Back,
    SetFeed(Seq<char>),
}

/// The mathematical value of a `Screen`.
pub enum ScreenView {
    Home,
    Feed(RssView),
}

/// The mathematical value of a `Model`.
pub struct ModelView {
    pub feeds: Seq<FeedRefView>,
    pub selected: int,
    pub screen: ScreenView,
}

impl View for Message {
    type V = MessageView;

    open spec fn view(&self) -> MessageView {
        match self {
            Message::Down => MessageView::Down,
            Message::Up => MessageView::Up,
            Message::Back => MessageView::Back,
            Message::SetFeed(name) => MessageView::SetFeed(name@),
        }
    }
}

impl View for Screen {
    type V = ScreenView;

    open spec fn view(&self) -> ScreenView {
        match self {
            Screen::Home => ScreenView::Home,
            Screen::Feed(rss) => ScreenView::Feed(rss@),
        }
    }
}

impl View for Model {
    type V = ModelView;

    closed spec fn view(&self) -> ModelView {
        ModelView { feeds: self.config@, selected: self.selected as int, screen: self.screen@ }
    }
}

/// A state that the machine can be in: the table is sorted, and the
/// highlighted row exists, or is row zero of an empty table.
pub open spec fn wf(a: ModelView) -> bool {
    &&& sorted(a.feeds)
    &&& 0 <= a.selected
    &&& a.selected < a.feeds.len() || (a.feeds.len() == 0 && a.selected == 0)
}

/// The state in which the machine starts.
pub open spec fn initial(feeds: Seq<FeedRefView>) -> ModelView {
    ModelView { feeds, selected: 0, screen: ScreenView::Home }
}

/// The state after one message. Moving the highlight works on the feed
/// list only and wraps at both ends; going back leads to the feed list;
/// asking for a feed changes nothing until the feed is there.
pub open spec fn step(a: ModelView, m: MessageView) -> ModelView {
    match m {
        MessageView::Down => if a.screen is Home {
            ModelView { selected: next_index(a.selected, a.feeds.len() as int), ..a }
        } else {
            a
        },
        MessageView::Up => if a.screen is Home {
            ModelView { selected: prev_index(a.selected, a.feeds.len() as int), ..a }
        } else {
            a
        },
        MessageView::Back => ModelView { screen: ScreenView::Home, ..a },
        MessageView::SetFeed(_) => a,
    }
}

/// The fetch that one message sets off: asking for a feed that the table
/// holds asks for it by name and address; nothing else asks for anything.
pub open spec fn request(a: ModelView, m: MessageView) -> Option<FetchRequestView> {
    match m {
        MessageView::SetFeed(name) => match lookup(a.feeds, name) {
            Some(conf) => Some(FetchRequestView { name, url: conf.url }),
            None => None,
        },
        _ => None,
    }
}

/// The state once a fetched feed is shown.
pub open spec fn showing(a: ModelView, rss: RssView) -> ModelView {
    ModelView { screen: ScreenView::Feed(rss), ..a }
}

impl Model {
    /// What holds of every machine: its state is one of `wf`.
    #[verifier::type_invariant]
    pub open spec fn inv(&self) -> bool {
        wf(self@)
    }

    /// The machine in its starting state over a table of feeds.
    pub fn new(config: Config) -> (model: Model)
        ensures
            model@ == initial(config@),
            wf(model@),
    {
        proof {
            use_type_invariant(&config);
        }
        Model { config, selected: 0, screen: Screen::Home }
    }

    /// The table of feeds.
    pub fn config(&self) -> (config: &Config)
        ensures
            config@ == self@.feeds,
    {
        &self.config
    }

    /// The highlighted row; none where the table is empty.
    pub fn selected(&self) -> (row: Option<usize>)
        ensures
            wf(self@),
            match row {
                Some(i) => self@.feeds.len() > 0 && i == self@.selected,
                None => self@.feeds.len() == 0,
            },
    {
        proof {
            use_type_invariant(self);
        }
        if self.config.len() > 0 {
            Some(self.selected)
        } else {
            None
        }
    }

    /// What is on display.
    pub fn screen(&self) -> (screen: &Screen)
        ensures
            screen@ == self@.screen,
    {
        &self.screen
    }

    /// Takes one message: moves to the state that `step` gives and hands
    /// back the fetch that `request` gives, for the caller to carry out
    /// and to answer with `show_feed`.
    pub fn handle_message(&mut self, msg: Message) -> (req: Option<FetchRequest>)
        ensures
            final(self)@ == step(old(self)@, msg@),
            wf(final(self)@),
            match req {
                Some(r) => request(old(self)@, msg@) == Some(r@),
                None => request(old(self)@, msg@) is None,
            },
    {
        proof {
            use_type_invariant(&*self);
        }
        let count = self.config.len();
        match msg {
            Message::Down => {
                if count > 0 {
                    if let Screen::Home = self.screen {
                        proof {
                            lemma_next_index(self.selected as int, count as int);
                        }
                        if self.selected + 1 >= count {
                            self.selected = 0;
                        } else {
                            self.selected = self.selected + 1;
                        }
                    }
                }
                None
            },
            Message::Up => {
                if count > 0 {
                    if let Screen::Home = self.screen {
                        proof {
                            lemma_prev_index(self.selected as int, count as int);
                        }
                        if self.selected == 0 {
                            self.selected = count - 1;
                        } else {
                            self.selected = self.selected - 1;
                        }
                    }
                }
                None
            },
            Message::Back => {
                self.screen = Screen::Home;
                None
            },
            Message::SetFeed(name) => {
                match self.config.get(name.as_str()) {
                    Some(conf) => {
                        let url = conf.url.clone();
                        Some(FetchRequest { name, url })
                    },
                    None => None,
                }
            },
        }
    }

    /// Shows a fetched feed; the table and the highlight stay as they were.
    pub fn show_feed(&mut self, rss: Rss)
        ensures
            final(self)@ == showing(old(self)@, rss@),
            wf(final(self)@),
    {
        proof {
            use_type_invariant(&*self);
        }
        self.screen = Screen::Feed(rss);
    }
}

/// Every message, and every feed shown, leads from a state of the machine
/// to a state of the machine, over the same table.
pub proof fn lemma_step_keeps_wf(a: ModelView, m: MessageView, rss: RssView)
    requires
        wf(a),
    ensures
        wf(step(a, m)),
        step(a, m).feeds == a.feeds,
        wf(showing(a, rss)),
        showing(a, rss).selected == a.selected,
{
    if a.feeds.len() > 0 {
        lemma_next_index(a.selected, a.feeds.len() as int);
        lemma_prev_index(a.selected, a.feeds.len() as int);
    }
}

/// Over an empty table no message moves the highlight or sets off a fetch.
pub proof fn lemma_empty_table_is_inert(a: ModelView, m: MessageView)
    requires
        wf(a),
        a.feeds.len() == 0,
    ensures
        step(a, m).selected == a.selected,
        request(a, m) is None,
{
}

} // verus!
