//! The display tree that a screen shows, and how a feed is laid out as one.

use vstd::prelude::*;
use vstd::string::StringExecFns;
use crate::rss::{Item, ItemView, Rss, RssView};

verus! {

/// A display tree: a titled frame around a subtree, or a list of lines.
#[derive(Debug)]
pub enum Ast {
    Block(String, Box<Ast>),
    List(Vec<String>),
}

/// The mathematical value of an `Ast`.
pub enum AstView {
    Block(Seq<char>, Box<AstView>),
    List(Seq<Seq<char>>),
}

impl View for Ast {
    type V = AstView;

    open spec fn view(&self) -> AstView
        decreases self,
    {
        match self {
            Ast::Block(title, inner) => AstView::Block(title@, Box::new((**inner).view())),
            Ast::List(lines) => AstView::List(Seq::new(lines@.len(), |i: int| lines@[i]@)),
        }
    }
}

/// The line that shows one item: a bullet, the title, a colon and the link.
pub open spec fn entry_line(item: ItemView) -> Seq<char> {
    seq!['*', ' '] + item.title + seq![':', ' '] + item.link
}

/// The lines of a feed's items, one per item and in the items' order.
pub open spec fn entry_lines(items: Seq<ItemView>) -> Seq<Seq<char>> {
    Seq::new(items.len(), |i: int| entry_line(items[i]))
}

/// The display tree of a feed: a frame titled with the feed's title around
/// the list of its items' lines.
pub open spec fn normalized(rss: RssView) -> AstView {
    AstView::Block(rss.channel.title, Box::new(AstView::List(entry_lines(rss.channel.item))))
}

/// Renders one item as the line `* title: link`.
pub fn render_item(item: &Item) -> (line: String)
    ensures
        line@ == entry_line(item@),
{
    proof {
        reveal_strlit("* ");
        reveal_strlit(": ");
    }
    let mut line = String::from_str("* ");
    line.append(item.title.as_str());
    line.append(": ");
    line.append(item.link.as_str());
    assert("* "@ =~= seq!['*', ' ']);
    assert(": "@ =~= seq![':', ' ']);
    line
}

/// Lays a fetched feed out for display: one frame titled with the feed's
/// title, holding one line per item in the feed's own order.
pub fn normalize(rss: &Rss) -> (ast: Ast)
    ensures
        ast@ == normalized(rss@),
{
    let mut lines: Vec<String> = Vec::new();
    let n = rss.channel.item.len();
    let mut i: usize = 0;
    while i < n
        invariant
            n == rss.channel.item@.len(),
            i <= n,
            lines@.len() == i,
            forall|k: int| 0 <= k < i ==> (#[trigger] lines@[k])@ == entry_line(rss.channel.item@[k]@),
        decreases n - i,
    {
        let line = render_item(&rss.channel.item[i]);
        lines.push(line);
        i = i + 1;
    }
    assert(Seq::new(lines@.len(), |i: int| lines@[i]@) =~= entry_lines(rss@.channel.item));
    let list = Ast::List(lines);
    assert(list@ == AstView::List(entry_lines(rss@.channel.item)));
    Ast::Block(rss.channel.title.clone(), Box::new(list))
}

/// An item's line holds the item's title and link unchanged, each at its
/// place: after the bullet, and after the colon that follows the title.
pub proof fn lemma_entry_line_parts(item: ItemView)
    ensures
        entry_line(item).len() == item.title.len() + item.link.len() + 4,
        entry_line(item).subrange(0, 2) == seq!['*', ' '],
        entry_line(item).subrange(2, item.title.len() as int + 2) == item.title,
        entry_line(item).subrange(item.title.len() as int + 2, item.title.len() as int + 4) == seq![
            ':',
            ' ',
        ],
        entry_line(item).subrange(item.title.len() as int + 4, entry_line(item).len() as int)
            == item.link,
{
    let line = entry_line(item);
    let t = item.title.len() as int;
    assert(line.subrange(0, 2) =~= seq!['*', ' ']);
    assert(line.subrange(2, t + 2) =~= item.title);
    assert(line.subrange(t + 2, t + 4) =~= seq![':', ' ']);
    assert(line.subrange(t + 4, line.len() as int) =~= item.link);
}

/// A feed's display tree keeps the feed's items, one line each and in the
/// feed's order.
pub proof fn lemma_normalized_keeps_items(rss: RssView)
    ensures
        normalized(rss) matches AstView::Block(title, inner) && title == rss.channel.title && (
        *inner matches AstView::List(lines) && lines.len() == rss.channel.item.len()
            && forall|i: int|
            0 <= i < lines.len() ==> #[trigger] lines[i] == entry_line(rss.channel.item[i])),
{
}

} // verus!
