//! The application state machine: which screen is shown, which feed is
//! highlighted, and what each message does to both.

use vstd::prelude::*;
use crate::ast::{normalize, normalized, Ast, AstView};
use crate::config::{sorted, Config, FeedRefView};
use crate::rss::{Rss, RssView};
use crate::tui::{Event, KeyCode};
use vstd::string::StringExecFns;

verus! {

/// Why a fetch brought no feed.
#[derive(Debug, Clone, Copy, PartialEq, Eq, Structural)]
pub enum FetchError {
    /// The feed could not be fetched over the network.
    Transport,
    /// What was fetched is not a well-formed feed.
    Parse,
}

/// What the machine takes in, in the order of arrival.
#[derive(Debug)]
pub enum Message {
    /// Highlight the next feed.
    Down,
    /// Highlight the feed before.
    Up,
    /// Leave the current screen for the feed list.
    Back,
    /// Fetch the highlighted feed.
    SetFeed,
    /// A fetch has ended, with the feed or with the reason why there is none.
    GotFeed(Result<Rss, FetchError>),
}

/// What is on display.
#[derive(Debug)]
pub enum Screen {
    /// The list of feeds.
    Home,
    /// A fetch is under way, for the feed of this name.
    Loading(String),
    /// A fetched feed, laid out for display.
    Content(Ast),
}

/// A fetch that the machine asks for.
#[derive(Debug)]
pub struct FetchRequest {
    /// The name of the feed in the table.
    pub name: String,
    /// Where to fetch it from.
    pub url: String,
}

/// The machine: the table of feeds, the highlighted row, the screen, and
/// the report of the last failed fetch until it is dismissed.
#[derive(Debug)]
pub struct App {
    config: Config,
    selected: usize,
    screen: Screen,
    status: Option<FetchError>,
}

/// The mathematical value of a `Message`.
pub enum MessageView {
    Down,
    Up,
    Back,
    SetFeed,
    GotFeed(Result<RssView, FetchError>),
}

/// The mathematical value of a `Screen`.
pub enum ScreenView {
    Home,
    Loading(Seq<char>),
    Content(AstView),
}

/// The mathematical value of a `FetchRequest`.
pub struct FetchRequestView {
    pub name: Seq<char>,
    pub url: Seq<char>,
}

/// The mathematical value of an `App`.
pub struct AppView {
    pub feeds: Seq<FeedRefView>,
    pub selected: int,
    pub screen: ScreenView,
    pub status: Option<FetchError>,
}

impl View for Message {
    type V = MessageView;

    open spec fn view(&self) -> MessageView {
        match self {
            Message::Down => MessageView::Down,
            Message::Up => MessageView::Up,
            Message::Back => MessageView::Back,
            Message::SetFeed => MessageView::SetFeed,
            Message::GotFeed(Ok(rss)) => MessageView::GotFeed(Ok(rss@)),
            Message::GotFeed(Err(e)) => MessageView::GotFeed(Err(*e)),
        }
    }
}

impl View for Screen {
    type V = ScreenView;

    open spec fn view(&self) -> ScreenView {
        match self {
            Screen::Home => ScreenView::Home,
            Screen::Loading(name) => ScreenView::Loading(name@),
            Screen::Content(ast) => ScreenView::Content(ast@),
        }
    }
}

impl View for FetchRequest {
    type V = FetchRequestView;

    open spec fn view(&self) -> FetchRequestView {
        FetchRequestView { name: self.name@, url: self.url@ }
    }
}

impl View for App {
    type V = AppView;

    closed spec fn view(&self) -> AppView {
        AppView {
            feeds: self.config@,
            selected: self.selected as int,
            screen: self.screen@,
            status: self.status,
        }
    }
}

/// A state that the machine can be in: the table is sorted, and the
/// highlighted row exists, or is row zero of an empty table.
pub open spec fn wf(a: AppView) -> bool {
    &&& sorted(a.feeds)
    &&& 0 <= a.selected
    &&& a.selected < a.feeds.len() || (a.feeds.len() == 0 && a.selected == 0)
}

/// The state in which the machine starts: the feed list, first row
/// highlighted, nothing to report.
pub open spec fn initial(feeds: Seq<FeedRefView>) -> AppView {
    AppView { feeds, selected: 0, screen: ScreenView::Home, status: None }
}

/// The row after `i` among `n` rows, the first following the last.
pub open spec fn next_index(i: int, n: int) -> int {
    if n > 0 {
        (i + 1) % n
    } else {
        i
    }
}

/// The row before `i` among `n` rows, the last preceding the first.
pub open spec fn prev_index(i: int, n: int) -> int {
    if n > 0 {
        (i - 1 + n) % n
    } else {
        i
    }
}

/// The highlighted row, where there is any row.
pub open spec fn selection(a: AppView) -> Option<usize> {
    if a.feeds.len() > 0 {
        Some(a.selected as usize)
    } else {
        None
    }
}

/// The state after one message.
///
/// Moving the highlight works on the feed list only and wraps at both ends.
/// Selecting starts a fetch of the highlighted feed unless the table is
/// empty. A feed that arrives is shown; a failure leads back to the feed
/// list and is kept as the report, which going back, a new fetch or an
/// arriving feed dismisses.
pub open spec fn step(a: AppView, m: MessageView) -> AppView {
    match m {
        MessageView::Down => if a.screen is Home {
            AppView { selected: next_index(a.selected, a.feeds.len() as int), ..a }
        } else {
            a
        },
        MessageView::Up => if a.screen is Home {
            AppView { selected: prev_index(a.selected, a.feeds.len() as int), ..a }
        } else {
            a
        },
        MessageView::Back => AppView { screen: ScreenView::Home, status: None, ..a },
        MessageView::SetFeed => if a.feeds.len() > 0 {
            AppView { screen: ScreenView::Loading(a.feeds[a.selected].name), status: None, ..a }
        } else {
            a
        },
        MessageView::GotFeed(Ok(rss)) => AppView {
            screen: ScreenView::Content(normalized(rss)),
            status: None,
            ..a
        },
        MessageView::GotFeed(Err(e)) => AppView { screen: ScreenView::Home, status: Some(e), ..a },
    }
}

/// The fetch that one message sets off, if any: selecting asks for the
/// highlighted feed, by name and address; nothing else asks for anything.
pub open spec fn request(a: AppView, m: MessageView) -> Option<FetchRequestView> {
    if m is SetFeed && a.feeds.len() > 0 {
        Some(
            FetchRequestView {
                name: a.feeds[a.selected].name,
                url: a.feeds[a.selected].conf.url,
            },
        )
    } else {
        None
    }
}

/// The values of a run of messages.
pub open spec fn messages(v: Seq<Message>) -> Seq<MessageView> {
    Seq::new(v.len(), |i: int| v[i]@)
}

/// The values of a run of fetch requests.
pub open spec fn fetch_requests(v: Seq<FetchRequest>) -> Seq<FetchRequestView> {
    Seq::new(v.len(), |i: int| v[i]@)
}

/// The state after a run of messages, taken in order.
pub open spec fn run(a: AppView, ms: Seq<MessageView>) -> AppView
    decreases ms.len(),
{
    if ms.len() == 0 {
        a
    } else {
        step(run(a, ms.drop_last()), ms.last())
    }
}

/// The fetches that a run of messages sets off, in order.
pub open spec fn requests(a: AppView, ms: Seq<MessageView>) -> Seq<FetchRequestView>
    decreases ms.len(),
{
    if ms.len() == 0 {
        Seq::empty()
    } else {
        let earlier = requests(a, ms.drop_last());
        match request(run(a, ms.drop_last()), ms.last()) {
            Some(r) => earlier.push(r),
            None => earlier,
        }
    }
}

impl App {
    /// What holds of every machine: its state is one of `wf`.
    #[verifier::type_invariant]
    pub open spec fn inv(&self) -> bool {
        wf(self@)
    }

    /// The machine in its starting state over a table of feeds.
    pub fn new(config: Config) -> (app: App)
        ensures
            app@ == initial(config@),
            wf(app@),
    {
        proof {
            use_type_invariant(&config);
        }
        App { config, selected: 0, screen: Screen::Home, status: None }
    }

    /// The table of feeds.
    pub fn config(&self) -> (config: &Config)
        ensures
            config@ == self@.feeds,
    {
        &self.config
    }

    /// The highlighted row; none where the table is empty.
    pub fn selected(&self) -> (row: Option<usize>)
        ensures
            row == selection(self@),
            wf(self@),
    {
        proof {
            use_type_invariant(self);
        }
        if self.config.len() > 0 {
            Some(self.selected)
        } else {
            None
        }
    }

    /// What is on display.
    pub fn screen(&self) -> (screen: &Screen)
        ensures
            screen@ == self@.screen,
    {
        &self.screen
    }

    /// The report of the last failed fetch, until it is dismissed.
    pub fn status(&self) -> (status: Option<FetchError>)
        ensures
            status == self@.status,
    {
        self.status
    }

    fn apply(&mut self, msg: &Message) -> (req: Option<FetchRequest>)
        ensures
            final(self)@ == step(old(self)@, msg@),
            wf(final(self)@),
            match req {
                Some(r) => request(old(self)@, msg@) == Some(r@),
                None => request(old(self)@, msg@) is None,
            },
    {
        proof {
            use_type_invariant(&*self);
        }
        let count = self.config.len();
        match msg {
            Message::Down => {
                if count > 0 {
                    if let Screen::Home = self.screen {
                        proof {
                            lemma_next_index(self.selected as int, count as int);
                        }
                        if self.selected + 1 >= count {
                            self.selected = 0;
                        } else {
                            self.selected = self.selected + 1;
                        }
                    }
                }
                None
            },
            Message::Up => {
                if count > 0 {
                    if let Screen::Home = self.screen {
                        proof {
                            lemma_prev_index(self.selected as int, count as int);
                        }
                        if self.selected == 0 {
                            self.selected = count - 1;
                        } else {
                            self.selected = self.selected - 1;
                        }
                    }
                }
                None
            },
            Message::Back => {
                self.screen = Screen::Home;
                self.status = None;
                None
            },
            Message::SetFeed => {
                match self.config.nth(self.selected) {
                    Some(row) => {
                        let name = row.name.clone();
                        let url = row.conf.url.clone();
                        self.screen = Screen::Loading(row.name.clone());
                        self.status = None;
                        Some(FetchRequest { name, url })
                    },
                    None => None,
                }
            },
            Message::GotFeed(Ok(rss)) => {
                self.screen = Screen::Content(normalize(rss));
                self.status = None;
                None
            },
            Message::GotFeed(Err(e)) => {
                self.screen = Screen::Home;
                self.status = Some(*e);
                None
            },
        }
    }

    /// Takes one message: moves to the state that `step` gives and hands
    /// back the fetch that `request` gives, for the caller to carry out.
    pub fn handle_message(&mut self, msg: Message) -> (req: Option<FetchRequest>)
        ensures
            final(self)@ == step(old(self)@, msg@),
            wf(final(self)@),
            match req {
                Some(r) => request(old(self)@, msg@) == Some(r@),
                None => request(old(self)@, msg@) is None,
            },
    {
        self.apply(&msg)
    }

    /// Takes a run of messages in order: ends in the state that `run`
    /// gives and hands back the fetches that `requests` gives, in order.
    pub fn handle_all(&mut self, msgs: &Vec<Message>) -> (reqs: Vec<FetchRequest>)
        ensures
            final(self)@ == run(old(self)@, messages(msgs@)),
            wf(final(self)@),
            fetch_requests(reqs@) == requests(old(self)@, messages(msgs@)),
    {
        proof {
            use_type_invariant(&*self);
        }
        let ghost start = self@;
        let ghost all = messages(msgs@);
        let mut reqs: Vec<FetchRequest> = Vec::new();
        let mut i: usize = 0;
        assert(all.take(0) =~= Seq::<MessageView>::empty());
        assert(fetch_requests(reqs@) =~= Seq::<FetchRequestView>::empty());
        while i < msgs.len()
            invariant
                i <= msgs@.len(),
                all == messages(msgs@),
                wf(self@),
                self@ == run(start, all.take(i as int)),
                fetch_requests(reqs@) == requests(start, all.take(i as int)),
            decreases msgs@.len() - i,
        {
            let ghost seen = all.take(i as int);
            let ghost more = all.take(i + 1);
            let ghost earlier = fetch_requests(reqs@);
            assert(more.drop_last() =~= seen);
            assert(more.last() == msgs@[i as int]@);
            let req = self.apply(&msgs[i]);
            match req {
                Some(r) => {
                    reqs.push(r);
                    assert(fetch_requests(reqs@) =~= earlier.push(r@));
                },
                None => {},
            }
            i = i + 1;
        }
        assert(all.take(i as int) =~= all);
        reqs
    }
}

/// Every message leads from a state of the machine to a state of the
/// machine, over the same table.
pub proof fn lemma_step_keeps_wf(a: AppView, m: MessageView)
    requires
        wf(a),
    ensures
        wf(step(a, m)),
        step(a, m).feeds == a.feeds,
{
    if a.feeds.len() > 0 {
        lemma_next_index(a.selected, a.feeds.len() as int);
        lemma_prev_index(a.selected, a.feeds.len() as int);
    }
}

/// Every run of messages leads from a state of the machine to a state of
/// the machine, over the same table: on a table with rows the highlighted
/// row is always one of them, whatever arrives and in whatever order.
pub proof fn lemma_run_keeps_wf(a: AppView, ms: Seq<MessageView>)
    requires
        wf(a),
    ensures
        wf(run(a, ms)),
        run(a, ms).feeds == a.feeds,
        a.feeds.len() > 0 ==> 0 <= run(a, ms).selected < a.feeds.len(),
    decreases ms.len(),
{
    if ms.len() > 0 {
        lemma_run_keeps_wf(a, ms.drop_last());
        lemma_step_keeps_wf(run(a, ms.drop_last()), ms.last());
    }
}

/// On the feed list of a table with rows, moving down highlights the row
/// after, and the first row after the last; moving up highlights the row
/// before, and the last row before the first.
pub proof fn lemma_navigation_wraps(a: AppView)
    requires
        wf(a),
        a.screen is Home,
        a.feeds.len() > 0,
    ensures
        step(a, MessageView::Down).selected == (if a.selected == a.feeds.len() - 1 {
            0
        } else {
            a.selected + 1
        }),
        step(a, MessageView::Up).selected == (if a.selected == 0 {
            a.feeds.len() - 1
        } else {
            a.selected - 1
        }),
        step(a, MessageView::Down) == (AppView { selected: step(a, MessageView::Down).selected, ..a }),
        step(a, MessageView::Up) == (AppView { selected: step(a, MessageView::Up).selected, ..a }),
{
    lemma_next_index(a.selected, a.feeds.len() as int);
    lemma_prev_index(a.selected, a.feeds.len() as int);
}

/// Moving up undoes moving down, and moving down undoes moving up.
pub proof fn lemma_up_and_down_cancel(a: AppView)
    requires
        wf(a),
    ensures
        step(step(a, MessageView::Down), MessageView::Up) == a,
        step(step(a, MessageView::Up), MessageView::Down) == a,
{
    if a.feeds.len() > 0 && a.screen is Home {
        lemma_navigation_wraps(a);
        lemma_step_keeps_wf(a, MessageView::Down);
        lemma_step_keeps_wf(a, MessageView::Up);
        lemma_navigation_wraps(step(a, MessageView::Down));
        lemma_navigation_wraps(step(a, MessageView::Up));
    }
}

/// Over an empty table moving the highlight and selecting change nothing
/// and set off no fetch.
pub proof fn lemma_empty_table_is_inert(a: AppView, m: MessageView)
    requires
        wf(a),
        a.feeds.len() == 0,
        m is Down || m is Up || m is SetFeed,
    ensures
        step(a, m) == a,
        request(a, m) is None,
{
}

/// Selecting on the feed list of a table with rows leads to the loading
/// screen for the highlighted feed and sets off one fetch, of that feed;
/// the highlight stays where it was.
pub proof fn lemma_select_starts_one_fetch(a: AppView)
    requires
        wf(a),
        a.screen is Home,
        a.feeds.len() > 0,
    ensures
        step(a, MessageView::SetFeed).screen == ScreenView::Loading(a.feeds[a.selected].name),
        step(a, MessageView::SetFeed).selected == a.selected,
        request(a, MessageView::SetFeed) == Some(
            FetchRequestView {
                name: a.feeds[a.selected].name,
                url: a.feeds[a.selected].conf.url,
            },
        ),
        requests(a, seq![MessageView::SetFeed]) == seq![
            FetchRequestView {
                name: a.feeds[a.selected].name,
                url: a.feeds[a.selected].conf.url,
            },
        ],
{
    let ms = seq![MessageView::SetFeed];
    assert(ms.drop_last() =~= Seq::<MessageView>::empty());
    assert(ms.last() == MessageView::SetFeed);
    assert(requests(a, ms.drop_last()) =~= Seq::<FetchRequestView>::empty());
    assert(run(a, ms.drop_last()) == a);
    assert(requests(a, ms) =~= seq![
        FetchRequestView {
            name: a.feeds[a.selected].name,
            url: a.feeds[a.selected].conf.url,
        },
    ]);
}

/// Only selecting sets off a fetch, and at most one.
pub proof fn lemma_only_select_fetches(a: AppView, m: MessageView)
    ensures
        !(m is SetFeed) ==> request(a, m) is None,
{
}

/// A feed that arrives while its fetch is awaited is shown in a frame that
/// bears its title, with one line per item, in the items' order, each made
/// of that item's title and link; the highlight stays where it was.
pub proof fn lemma_arrived_feed_is_shown(a: AppView, rss: RssView)
    requires
        a.screen is Loading,
    ensures
        step(a, MessageView::GotFeed(Ok(rss))).screen == ScreenView::Content(normalized(rss)),
        step(a, MessageView::GotFeed(Ok(rss))).selected == a.selected,
        normalized(rss) matches AstView::Block(title, inner) && title == rss.channel.title
            && (*inner matches AstView::List(lines) && lines.len() == rss.channel.item.len()
            && forall|i: int|
            0 <= i < lines.len() ==> #[trigger] lines[i] == crate::ast::entry_line(
                rss.channel.item[i],
            )),
{
}

/// A fetch that fails leads back to the feed list and leaves its reason as
/// the report; the highlight stays where it was.
pub proof fn lemma_failed_fetch_is_reported(a: AppView, e: FetchError)
    ensures
        step(a, MessageView::GotFeed(Err(e))).screen is Home,
        step(a, MessageView::GotFeed(Err(e))).status == Some(e),
        step(a, MessageView::GotFeed(Err(e))).selected == a.selected,
{
}

/// Going back from the loading screen or from a shown feed leads to the
/// feed list, with the highlight where it was.
pub proof fn lemma_back_returns_home(a: AppView)
    requires
        a.screen is Loading || a.screen is Content,
    ensures
        step(a, MessageView::Back).screen is Home,
        step(a, MessageView::Back).selected == a.selected,
        step(a, MessageView::Back).feeds == a.feeds,
{
}

/// The highlight is where it was before the fetch began once the user is
/// back on the feed list, whether they went back while the fetch was under
/// way or after it had ended, and however it ended.
pub proof fn lemma_selection_survives_fetch(a: AppView, outcome: Result<RssView, FetchError>)
    requires
        wf(a),
        a.screen is Home,
    ensures
        step(step(a, MessageView::SetFeed), MessageView::Back).screen is Home,
        step(step(a, MessageView::SetFeed), MessageView::Back).selected == a.selected,
        step(
            step(step(a, MessageView::SetFeed), MessageView::GotFeed(outcome)),
            MessageView::Back,
        ).screen is Home,
        step(
            step(step(a, MessageView::SetFeed), MessageView::GotFeed(outcome)),
            MessageView::Back,
        ).selected == a.selected,
{
}

/// The highlight moves only on the feed list, and only by moving up or down.
pub proof fn lemma_selection_moves_only_at_home(a: AppView, m: MessageView)
    requires
        !(a.screen is Home && (m is Down || m is Up)),
    ensures
        step(a, m).selected == a.selected,
{
}

/// On a table with rows, the next row is the one after, and row zero after
/// the last; the result is a row of the table.
pub proof fn lemma_next_index(i: int, n: int)
    requires
        0 <= i < n,
    ensures
        0 <= next_index(i, n) < n,
        i + 1 < n ==> next_index(i, n) == i + 1,
        i + 1 == n ==> next_index(i, n) == 0,
{
    if i + 1 < n {
        vstd::arithmetic::div_mod::lemma_small_mod((i + 1) as nat, n as nat);
    } else {
        vstd::arithmetic::div_mod::lemma_mod_self_0(n);
    }
}

/// On a table with rows, the row before is the one before, and the last
/// before row zero; the result is a row of the table.
pub proof fn lemma_prev_index(i: int, n: int)
    requires
        0 <= i < n,
    ensures
        0 <= prev_index(i, n) < n,
        i > 0 ==> prev_index(i, n) == i - 1,
        i == 0 ==> prev_index(i, n) == n - 1,
{
    if i > 0 {
        vstd::arithmetic::div_mod::lemma_mod_add_multiples_vanish(i - 1, n);
        vstd::arithmetic::div_mod::lemma_small_mod((i - 1) as nat, n as nat);
    } else {
        vstd::arithmetic::div_mod::lemma_small_mod((n - 1) as nat, n as nat);
    }
}

/// The same message `count` times over.
pub open spec fn repeated(m: MessageView, count: nat) -> Seq<MessageView> {
    Seq::new(count, |i: int| m)
}

/// On the feed list of a table with rows, moving down `count` times
/// highlights the row `count` places further on, counted round the table,
/// and changes nothing else.
pub proof fn lemma_moving_down(a: AppView, count: nat)
    requires
        wf(a),
        a.screen is Home,
        a.feeds.len() > 0,
    ensures
        run(a, repeated(MessageView::Down, count)) == (AppView {
            selected: (a.selected + count) % (a.feeds.len() as int),
            ..a
        }),
    decreases count,
{
    let n = a.feeds.len() as int;
    let ms = repeated(MessageView::Down, count);
    if count == 0 {
        vstd::arithmetic::div_mod::lemma_small_mod(a.selected as nat, n as nat);
    } else {
        let less = (count - 1) as nat;
        assert(ms.drop_last() =~= repeated(MessageView::Down, less));
        assert(ms.last() == MessageView::Down);
        lemma_moving_down(a, less);
        vstd::arithmetic::div_mod::lemma_add_mod_noop_right(1, a.selected + less, n);
    }
}

/// On the feed list of a table with rows, moving up `count` times
/// highlights the row `count` places back, counted round the table, and
/// changes nothing else.
pub proof fn lemma_moving_up(a: AppView, count: nat)
    requires
        wf(a),
        a.screen is Home,
        a.feeds.len() > 0,
    ensures
        run(a, repeated(MessageView::Up, count)) == (AppView {
            selected: (a.selected - count) % (a.feeds.len() as int),
            ..a
        }),
    decreases count,
{
    let n = a.feeds.len() as int;
    let ms = repeated(MessageView::Up, count);
    if count == 0 {
        vstd::arithmetic::div_mod::lemma_small_mod(a.selected as nat, n as nat);
    } else {
        let less = (count - 1) as nat;
        assert(ms.drop_last() =~= repeated(MessageView::Up, less));
        assert(ms.last() == MessageView::Up);
        lemma_moving_up(a, less);
        vstd::arithmetic::div_mod::lemma_add_mod_noop_right(n - 1, a.selected - less, n);
        vstd::arithmetic::div_mod::lemma_mod_add_multiples_vanish(a.selected - less - 1, n);
    }
}

/// Once round the table, in either direction, the highlight is back where
/// it started: as many moves as there are rows change nothing.
pub proof fn lemma_full_circle(a: AppView)
    requires
        wf(a),
        a.screen is Home,
        a.feeds.len() > 0,
    ensures
        run(a, repeated(MessageView::Down, a.feeds.len())) == a,
        run(a, repeated(MessageView::Up, a.feeds.len())) == a,
{
    let n = a.feeds.len() as int;
    lemma_moving_down(a, a.feeds.len());
    lemma_moving_up(a, a.feeds.len());
    vstd::arithmetic::div_mod::lemma_mod_add_multiples_vanish(a.selected, n);
    vstd::arithmetic::div_mod::lemma_mod_add_multiples_vanish(a.selected - n, n);
    vstd::arithmetic::div_mod::lemma_small_mod(a.selected as nat, n as nat);
}

/// What the main loop does with one event of the terminal.
#[derive(Debug)]
pub enum Action {
    /// Draw the current state.
    Draw,
    /// Queue this message for the machine.
    Send(Message),
    /// Leave the loop.
    Exit,
    /// Nothing.
    Idle,
}

/// The mathematical value of an `Action`.
pub enum ActionView {
    Draw,
    Send(MessageView),
    Exit,
    Idle,
}

impl View for Action {
    type V = ActionView;

    open spec fn view(&self) -> ActionView {
        match self {
            Action::Draw => ActionView::Draw,
            Action::Send(m) => ActionView::Send(m@),
            Action::Exit => ActionView::Exit,
            Action::Idle => ActionView::Idle,
        }
    }
}

/// The key map: `k` and the up arrow move up, `j` and the down arrow move
/// down, enter selects, `b` goes back, `q` quits, and no other key does
/// anything.
pub open spec fn key_action(code: KeyCode) -> ActionView {
    match code {
        KeyCode::Char(c) => if c == 'k' {
            ActionView::Send(MessageView::Up)
        } else if c == 'j' {
            ActionView::Send(MessageView::Down)
        } else if c == 'b' {
            ActionView::Send(MessageView::Back)
        } else if c == 'q' {
            ActionView::Exit
        } else {
            ActionView::Idle
        },
        KeyCode::Up => ActionView::Send(MessageView::Up),
        KeyCode::Down => ActionView::Send(MessageView::Down),
        KeyCode::Enter => ActionView::Send(MessageView::SetFeed),
        KeyCode::Other => ActionView::Idle,
    }
}

/// What the main loop does with an event: it draws when drawing is due,
/// follows the key map on a key, leaves on a request to quit, and lets the
/// bookkeeping timer and input errors pass.
pub open spec fn action_for(event: Event) -> ActionView {
    match event {
        Event::Render => ActionView::Draw,
        Event::Key(key) => key_action(key.code),
        Event::Quit => ActionView::Exit,
        Event::Error => ActionView::Idle,
        Event::Tick => ActionView::Idle,
    }
}

/// The words in which a failed fetch is reported.
pub open spec fn report(e: FetchError) -> Seq<char> {
    match e {
        FetchError::Transport => "Failed to fetch feed"@,
        FetchError::Parse => "Couldn't parse rss feed"@,
    }
}

impl FetchError {
    /// The report of this failure, for display.
    pub fn describe(&self) -> (text: String)
        ensures
            text@ == report(*self),
    {
        match self {
            FetchError::Transport => String::from_str("Failed to fetch feed"),
            FetchError::Parse => String::from_str("Couldn't parse rss feed"),
        }
    }
}

/// Decides what the main loop does with one event of the terminal.
pub fn on_event(event: Event) -> (action: Action)
    ensures
        action@ == action_for(event),
{
    match event {
        Event::Render => Action::Draw,
        Event::Quit => Action::Exit,
        Event::Error => Action::Idle,
        Event::Tick => Action::Idle,
        Event::Key(key) => match key.code {
            KeyCode::Up => Action::Send(Message::Up),
            KeyCode::Down => Action::Send(Message::Down),
            KeyCode::Enter => Action::Send(Message::SetFeed),
            KeyCode::Other => Action::Idle,
            KeyCode::Char(c) => {
                if c == 'k' {
                    Action::Send(Message::Up)
                } else if c == 'j' {
                    Action::Send(Message::Down)
                } else if c == 'b' {
                    Action::Send(Message::Back)
                } else if c == 'q' {
                    Action::Exit
                } else {
                    Action::Idle
                }
            },
        },
    }
}

/// An event yields at most one message, and only one that a user gives:
/// never the arrival of a feed.
pub proof fn lemma_events_send_user_messages(event: Event, m: MessageView)
    requires
        action_for(event) == ActionView::Send(m),
    ensures
        m is Up || m is Down || m is SetFeed || m is Back,
        event is Key,
{
}

/// The loop is left on a request to quit and on the key `q`, and on nothing
/// else.
pub proof fn lemma_exit_only_on_quit(event: Event)
    ensures
        action_for(event) is Exit <==> event is Quit || (event matches Event::Key(key)
            && key.code == KeyCode::Char('q')),
{
}

} // verus!
