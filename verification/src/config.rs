//! The configured feeds: a table keyed by feed name and kept in ascending
//! name order, so that every feed also has a stable ordinal position.

use vstd::prelude::*;
use vstd::utf8::{encode_utf8, encode_utf8_decode_utf8};

verus! {

/// Where one feed comes from and how it is shown.
#[derive(Debug, Clone)]
pub struct FeedConfig {
    pub url: String,
    pub title: String,
}

/// One row of the table: a feed's name with its settings.
#[derive(Debug, Clone)]
pub struct FeedRef {
    pub name: String,
    pub conf: FeedConfig,
}

/// The table of feeds. Names are unique and rows stand in ascending name
/// order, names being compared byte by byte in their UTF-8 encoding.
#[derive(Debug)]
pub struct Config {
    feeds: Vec<FeedRef>,
}

/// The mathematical value of a `FeedConfig`.
pub struct FeedConfigView {
    pub url: Seq<char>,
    pub title: Seq<char>,
}

/// The mathematical value of a `FeedRef`.
pub struct FeedRefView {
    pub name: Seq<char>,
    pub conf: FeedConfigView,
}

impl View for FeedConfig {
    type V = FeedConfigView;

    open spec fn view(&self) -> FeedConfigView {
        FeedConfigView { url: self.url@, title: self.title@ }
    }
}

impl View for FeedRef {
    type V = FeedRefView;

    open spec fn view(&self) -> FeedRefView {
        FeedRefView { name: self.name@, conf: self.conf@ }
    }
}

/// How one name stands to another in the table's order.
#[derive(Debug, Clone, Copy, PartialEq, Eq, Structural)]
pub enum NameOrder {
    Before,
    Same,
    After,
}

/// `a` and `b` hold the same bytes at every position below `k`.
pub open spec fn agree_upto(a: Seq<u8>, b: Seq<u8>, k: int) -> bool {
    &&& 0 <= k <= a.len()
    &&& k <= b.len()
    &&& forall|j: int| 0 <= j < k ==> a[j] == b[j]
}

/// `a` and `b` part ways at position `k`, and `a` is the smaller there:
/// it ends at `k` while `b` goes on, or it holds the smaller byte.
pub open spec fn parts_below_at(a: Seq<u8>, b: Seq<u8>, k: int) -> bool {
    &&& agree_upto(a, b, k)
    &&& k < b.len()
    &&& k < a.len() ==> a[k] < b[k]
}

/// Lexicographic order on byte strings.
pub open spec fn bytes_before(a: Seq<u8>, b: Seq<u8>) -> bool {
    exists|k: int| parts_below_at(a, b, k)
}

/// The order of feed names: lexicographic on the bytes of their encoding.
pub open spec fn name_before(a: Seq<char>, b: Seq<char>) -> bool {
    bytes_before(encode_utf8(a), encode_utf8(b))
}

/// Rows in strictly ascending name order.
pub open spec fn sorted(s: Seq<FeedRefView>) -> bool {
    forall|i: int, j: int| 0 <= i < j < s.len() ==> name_before(#[trigger] s[i].name, #[trigger] s[j].name)
}

/// Some row of `s` is called `name`.
pub open spec fn has_name(s: Seq<FeedRefView>, name: Seq<char>) -> bool {
    exists|i: int| 0 <= i < s.len() && (#[trigger] s[i]).name == name
}

/// The settings of the row called `name`, if there is one.
pub open spec fn lookup(s: Seq<FeedRefView>, name: Seq<char>) -> Option<FeedConfigView> {
    if has_name(s, name) {
        let i = choose|i: int| 0 <= i < s.len() && (#[trigger] s[i]).name == name;
        Some(s[i].conf)
    } else {
        None
    }
}

/// Two byte strings that part at different places, or at one place with
/// different verdicts, cannot both be smaller than each other, and none is
/// smaller than itself.
pub proof fn lemma_bytes_before_asymmetric(a: Seq<u8>, b: Seq<u8>)
    requires
        bytes_before(a, b),
    ensures
        !bytes_before(b, a),
        a != b,
{
    let k = choose|k: int| parts_below_at(a, b, k);
    if bytes_before(b, a) {
        let m = choose|m: int| parts_below_at(b, a, m);
        if m < k {
            assert(a[m] == b[m]);
        } else if k < m {
            assert(b[k] == a[k]);
        }
    }
}

/// The order on byte strings is transitive.
pub proof fn lemma_bytes_before_transitive(a: Seq<u8>, b: Seq<u8>, c: Seq<u8>)
    requires
        bytes_before(a, b),
        bytes_before(b, c),
    ensures
        bytes_before(a, c),
{
    let k = choose|k: int| parts_below_at(a, b, k);
    let m = choose|m: int| parts_below_at(b, c, m);
    if k <= m {
        assert(forall|j: int| 0 <= j < k ==> a[j] == b[j] && b[j] == c[j]);
        assert(parts_below_at(a, c, k));
    } else {
        assert(forall|j: int| 0 <= j < m ==> a[j] == b[j] && b[j] == c[j]);
        assert(a[m] == b[m]);
        assert(parts_below_at(a, c, m));
    }
}

/// Of two names exactly one holds: the first comes before the second, they
/// are the same name, or the second comes before the first.
pub proof fn lemma_name_order_exclusive(a: Seq<char>, b: Seq<char>)
    ensures
        name_before(a, b) ==> a != b && !name_before(b, a),
        name_before(b, a) ==> a != b && !name_before(a, b),
{
    if name_before(a, b) {
        lemma_bytes_before_asymmetric(encode_utf8(a), encode_utf8(b));
    }
    if name_before(b, a) {
        lemma_bytes_before_asymmetric(encode_utf8(b), encode_utf8(a));
    }
}

/// The order of names is transitive.
pub proof fn lemma_name_before_transitive(a: Seq<char>, b: Seq<char>, c: Seq<char>)
    requires
        name_before(a, b),
        name_before(b, c),
    ensures
        name_before(a, c),
{
    lemma_bytes_before_transitive(encode_utf8(a), encode_utf8(b), encode_utf8(c));
}

/// In a sorted table no name occurs twice, so a row is found under its name.
pub proof fn lemma_lookup_row(s: Seq<FeedRefView>, i: int)
    requires
        sorted(s),
        0 <= i < s.len(),
    ensures
        has_name(s, s[i].name),
        lookup(s, s[i].name) == Some(s[i].conf),
{
    let name = s[i].name;
    assert(has_name(s, name));
    let j = choose|j: int| 0 <= j < s.len() && (#[trigger] s[j]).name == name;
    if j < i {
        lemma_name_order_exclusive(s[j].name, s[i].name);
    } else if i < j {
        lemma_name_order_exclusive(s[i].name, s[j].name);
    }
}

/// Compares two names in the table's order.
#[verifier::loop_isolation(false)]
pub fn name_order(a: &str, b: &str) -> (r: NameOrder)
    ensures
        r == NameOrder::Before <==> name_before(a@, b@),
        r == NameOrder::Same <==> a@ == b@,
        r == NameOrder::After <==> name_before(b@, a@),
{
    let x = a.as_bytes();
    let y = b.as_bytes();
    proof {
        lemma_name_order_exclusive(a@, b@);
    }
    let mut i: usize = 0;
    while i < x.len() && i < y.len()
        invariant
            agree_upto(x@, y@, i as int),
        decreases x.len() - i,
    {
        if x[i] < y[i] {
            assert(parts_below_at(x@, y@, i as int));
            return NameOrder::Before;
        }
        if y[i] < x[i] {
            assert(agree_upto(y@, x@, i as int));
            assert(parts_below_at(y@, x@, i as int));
            return NameOrder::After;
        }
        i = i + 1;
    }
    if i < y.len() {
        assert(parts_below_at(x@, y@, i as int));
        NameOrder::Before
    } else if i < x.len() {
        assert(agree_upto(y@, x@, i as int));
        assert(parts_below_at(y@, x@, i as int));
        NameOrder::After
    } else {
        proof {
            assert(x@ =~= y@);
            encode_utf8_decode_utf8(a@);
            encode_utf8_decode_utf8(b@);
        }
        NameOrder::Same
    }
}

/// The values of a run of rows.
pub open spec fn rows(v: Seq<FeedRef>) -> Seq<FeedRefView> {
    Seq::new(v.len(), |i: int| v[i]@)
}

impl View for Config {
    type V = Seq<FeedRefView>;

    closed spec fn view(&self) -> Seq<FeedRefView> {
        rows(self.feeds@)
    }
}

impl Config {
    /// What holds of every table: its rows are sorted, hence uniquely named.
    #[verifier::type_invariant]
    pub open spec fn inv(&self) -> bool {
        sorted(self@)
    }

    /// The empty table.
    pub fn new() -> (config: Config)
        ensures
            config@ == Seq::<FeedRefView>::empty(),
    {
        let config = Config { feeds: Vec::new() };
        assert(config@ =~= Seq::<FeedRefView>::empty());
        config
    }

    /// The number of feeds.
    pub fn len(&self) -> (n: usize)
        ensures
            n == self@.len(),
    {
        self.feeds.len()
    }

    /// Whether the table holds no feed.
    pub fn is_empty(&self) -> (empty: bool)
        ensures
            empty == (self@.len() == 0),
    {
        self.feeds.len() == 0
    }

    /// The row at an ordinal position, counted from zero in name order.
    pub fn nth(&self, index: usize) -> (row: Option<&FeedRef>)
        ensures
            sorted(self@),
            match row {
                Some(r) => index < self@.len() && r@ == self@[index as int],
                None => index >= self@.len(),
            },
    {
        proof {
            use_type_invariant(self);
        }
        if index < self.feeds.len() {
            Some(&self.feeds[index])
        } else {
            None
        }
    }

    /// The settings of the feed called `name`.
    pub fn get(&self, name: &str) -> (found: Option<&FeedConfig>)
        ensures
            match found {
                Some(conf) => lookup(self@, name@) == Some(conf@),
                None => lookup(self@, name@) is None,
            },
    {
        proof {
            use_type_invariant(self);
        }
        let mut i: usize = 0;
        while i < self.feeds.len()
            invariant
                i <= self.feeds@.len(),
                sorted(self@),
                forall|j: int| 0 <= j < i ==> (#[trigger] self@[j]).name != name@,
            decreases self.feeds@.len() - i,
        {
            if name_order(self.feeds[i].name.as_str(), name) == NameOrder::Same {
                proof {
                    lemma_lookup_row(self@, i as int);
                }
                return Some(&self.feeds[i].conf);
            }
            i = i + 1;
        }
        None
    }

    /// The feed names in the table's order.
    pub fn keys(&self) -> (names: Vec<String>)
        ensures
            names@.len() == self@.len(),
            forall|i: int| 0 <= i < names@.len() ==> (#[trigger] names@[i])@ == self@[i].name,
    {
        let mut names: Vec<String> = Vec::new();
        let mut i: usize = 0;
        while i < self.feeds.len()
            invariant
                i <= self.feeds@.len(),
                names@.len() == i,
                forall|k: int| 0 <= k < i ==> (#[trigger] names@[k])@ == self@[k].name,
            decreases self.feeds@.len() - i,
        {
            names.push(self.feeds[i].name.clone());
            i = i + 1;
        }
        names
    }

    /// Puts a feed under `name`, in its place in the order. Where the name
    /// is taken already the row is replaced and its former settings are
    /// handed back; every other row stays as it was.
    pub fn insert(&mut self, name: String, conf: FeedConfig) -> (former: Option<FeedConfig>)
        ensures
            sorted(final(self)@),
            lookup(final(self)@, name@) == Some(conf@),
            forall|other: Seq<char>|
                other != name@ ==> lookup(final(self)@, other) == lookup(old(self)@, other),
            final(self)@.len() == old(self)@.len() + (if has_name(old(self)@, name@) {
                0int
            } else {
                1int
            }),
            match former {
                Some(c) => lookup(old(self)@, name@) == Some(c@),
                None => lookup(old(self)@, name@) is None,
            },
    {
        proof {
            use_type_invariant(&*self);
        }
        let ghost before = self@;
        let mut taken = Config::new();
        core::mem::swap(self, &mut taken);
        let mut feeds = taken.feeds;
        let mut i: usize = 0;
        let mut former: Option<FeedConfig> = None;
        while i < feeds.len()
            invariant_except_break
                i <= feeds@.len(),
                rows(feeds@) == before,
                former is None,
                forall|j: int| 0 <= j < i ==> name_before((#[trigger] before[j]).name, name@),
            invariant
                sorted(before),
            ensures
                i <= feeds@.len(),
                forall|j: int| 0 <= j < i ==> name_before((#[trigger] rows(feeds@)[j]).name, name@),
                forall|j: int|
                    i <= j < feeds@.len() ==> name_before(name@, (#[trigger] rows(feeds@)[j]).name),
                match former {
                    Some(c) => i < before.len() && before[i as int].name == name@
                        && before[i as int].conf == c@ && rows(feeds@) == before.remove(i as int),
                    None => rows(feeds@) == before && !has_name(before, name@),
                },
            decreases feeds@.len() - i,
        {
            let order = name_order(feeds[i].name.as_str(), name.as_str());
            assert(rows(feeds@)[i as int] == feeds@[i as int]@);
            if order == NameOrder::Same {
                let row = feeds.remove(i);
                assert(rows(feeds@) =~= before.remove(i as int));
                assert(row@ == before[i as int]);
                assert forall|j: int| i <= j < feeds@.len() implies name_before(
                    name@,
                    (#[trigger] rows(feeds@)[j]).name,
                ) by {
                    assert(rows(feeds@)[j] == before[j + 1]);
                    assert(name_before(before[i as int].name, before[j + 1].name));
                }
                former = Some(row.conf);
                break ;
            }
            if order == NameOrder::After {
                assert forall|j: int| i <= j < feeds@.len() implies name_before(
                    name@,
                    (#[trigger] rows(feeds@)[j]).name,
                ) by {
                    if i < j {
                        lemma_name_before_transitive(name@, before[i as int].name, before[j].name);
                    }
                }
                assert forall|j: int| 0 <= j < before.len() implies (#[trigger] before[j]).name
                    != name@ by {
                    lemma_name_order_exclusive(before[j].name, name@);
                    if i < j {
                        lemma_name_before_transitive(name@, before[i as int].name, before[j].name);
                    }
                }
                break ;
            }
            i = i + 1;
        }
        proof {
            if former is None && i == feeds@.len() {
                assert forall|j: int| 0 <= j < before.len() implies (#[trigger] before[j]).name
                    != name@ by {
                    lemma_name_order_exclusive(before[j].name, name@);
                }
            }
        }
        let ghost middle = rows(feeds@);
        let ghost row = FeedRefView { name: name@, conf: conf@ };
        feeds.insert(i, FeedRef { name, conf });
        proof {
            let after = rows(feeds@);
            assert(after =~= middle.insert(i as int, row));
            assert(sorted(after)) by {
                assert forall|a: int, b: int| 0 <= a < b < after.len() implies name_before(
                    #[trigger] after[a].name,
                    #[trigger] after[b].name,
                ) by {
                    if a < i && b > i {
                        assert(after[a] == middle[a]);
                        assert(after[b] == middle[b - 1]);
                        lemma_name_before_transitive(middle[a].name, name@, middle[b - 1].name);
                    } else if a < i && b < i {
                        assert(after[a] == middle[a] && after[b] == middle[b]);
                    } else if a > i {
                        assert(after[a] == middle[a - 1] && after[b] == middle[b - 1]);
                    } else if a == i {
                        assert(after[b] == middle[b - 1]);
                    } else {
                        assert(after[a] == middle[a]);
                    }
                }
            }
            lemma_lookup_row(after, i as int);
            assert forall|other: Seq<char>| other != name@ implies lookup(after, other) == lookup(
                before,
                other,
            ) by {
                lemma_lookup_kept(before, middle, after, i as int, row, other);
            }
            if former is Some {
                lemma_lookup_row(before, i as int);
            }
        }
        *self = Config { feeds };
        former
    }
}

/// A table from which at most the row called like `row` was taken, and into
/// which `row` was then put, maps every other name as before.
proof fn lemma_lookup_kept(
    before: Seq<FeedRefView>,
    middle: Seq<FeedRefView>,
    after: Seq<FeedRefView>,
    i: int,
    row: FeedRefView,
    other: Seq<char>,
)
    requires
        sorted(before),
        sorted(after),
        0 <= i <= middle.len(),
        after == middle.insert(i, row),
        middle == before || (i < before.len() && before[i].name == row.name && middle
            == before.remove(i)),
        other != row.name,
    ensures
        lookup(after, other) == lookup(before, other),
{
    if has_name(before, other) {
        let j = choose|j: int| 0 <= j < before.len() && (#[trigger] before[j]).name == other;
        lemma_lookup_row(before, j);
        if middle == before {
            let k = if j < i { j } else { j + 1 };
            assert(after[k] == before[j]);
            lemma_lookup_row(after, k);
        } else {
            let m = if j < i { j } else { j - 1 };
            assert(middle[m] == before[j]);
            let k = if m < i { m } else { m + 1 };
            assert(after[k] == middle[m]);
            lemma_lookup_row(after, k);
        }
    } else if has_name(after, other) {
        let k = choose|k: int| 0 <= k < after.len() && (#[trigger] after[k]).name == other;
        let m = if k < i { k } else { k - 1 };
        assert(after[k] == middle[m]);
        if middle == before {
            assert(before[m].name == other);
        } else {
            let j = if m < i { m } else { m + 1 };
            assert(before[j] == middle[m]);
        }
    }
}

} // verus!
