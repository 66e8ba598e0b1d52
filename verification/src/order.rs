//! The order in which the preview lists the entries of a directory.

use vstd::prelude::*;

use crate::text::{ascii_lower, chars_of, lowered};

verus! {

/// What kind of thing a directory entry is; `Unknown` where that could not be read.
#[derive(Clone, Copy, PartialEq, Eq, Structural, Debug)]
pub enum EntryKind {
    Directory,
    File,
    Other,
    Unknown,
}

/// An entry of a directory. The `id` is the reader's own handle for it.
#[derive(Debug)]
pub struct DirEntry {
    pub id: u64,
    pub name: String,
    pub kind: EntryKind,
}

/// The model of a [`DirEntry`].
#[verifier::ext_equal]
pub struct EntryView {
    pub id: u64,
    pub name: Seq<char>,
    pub kind: EntryKind,
}

impl View for DirEntry {
    type V = EntryView;

    open spec fn view(&self) -> EntryView {
        EntryView { id: self.id, name: self.name@, kind: self.kind }
    }
}

/// The models of the entries of a list.
pub open spec fn entry_views(entries: Seq<DirEntry>) -> Seq<EntryView> {
    entries.map_values(|e: DirEntry| e@)
}

/// The key by which an entry is ordered: its name in ASCII lower case.
pub open spec fn sort_key(e: EntryView) -> Seq<char> {
    lowered(e.name)
}

/// Whether `a` comes before `b` in the dictionary order of their characters.
pub open spec fn text_before(a: Seq<char>, b: Seq<char>) -> bool
    decreases a.len(),
{
    if b.len() == 0 {
        false
    } else if a.len() == 0 {
        true
    } else if a[0] != b[0] {
        a[0] < b[0]
    } else {
        text_before(a.skip(1), b.skip(1))
    }
}

/// An ordered list with one more entry, behind all entries whose key is not greater.
pub open spec fn insert_entry(s: Seq<EntryView>, e: EntryView) -> Seq<EntryView>
    decreases s.len(),
{
    if s.len() > 0 && text_before(sort_key(e), sort_key(s.last())) {
        insert_entry(s.drop_last(), e).push(s.last())
    } else {
        s.push(e)
    }
}

/// The entries in the order of their keys; entries with equal keys keep their order.
pub open spec fn in_order(s: Seq<EntryView>) -> Seq<EntryView>
    decreases s.len(),
{
    if s.len() == 0 {
        seq![]
    } else {
        insert_entry(in_order(s.drop_last()), s.last())
    }
}

/// Whether no entry of the list has a greater key than a later one.
pub open spec fn is_ordered(s: Seq<EntryView>) -> bool {
    forall|i: int, j: int|
        0 <= i < j < s.len() ==> !text_before(sort_key(#[trigger] s[j]), sort_key(#[trigger] s[i]))
}

/// The entries of the list that have the key `key`, in the list's order.
pub open spec fn with_key(s: Seq<EntryView>, key: Seq<char>) -> Seq<EntryView> {
    s.filter(|e: EntryView| sort_key(e) == key)
}

/// Whether `a` comes before `b` in the dictionary order of their characters.
fn before(a: &Vec<char>, b: &Vec<char>) -> (r: bool)
    ensures
        r == text_before(a@, b@),
{
    let mut i: usize = 0;
    assert(a@.skip(0) == a@ && b@.skip(0) == b@);
    while i < a.len() && i < b.len()
        invariant
            i <= a@.len(),
            i <= b@.len(),
            text_before(a@, b@) == text_before(a@.skip(i as int), b@.skip(i as int)),
        decreases a@.len() - i,
    {
        proof {
            assert(a@.skip(i as int)[0] == a@[i as int]);
            assert(b@.skip(i as int)[0] == b@[i as int]);
            assert(a@.skip(i as int).skip(1) == a@.skip(i + 1));
            assert(b@.skip(i as int).skip(1) == b@.skip(i + 1));
        }
        if a[i] != b[i] {
            return a[i] < b[i];
        }
        i = i + 1;
    }
    i < b.len()
}

/// Orders the entries of a directory by their names in ASCII lower case.
pub fn sort_entries(entries: Vec<DirEntry>) -> (r: Vec<DirEntry>)
    ensures
        entry_views(r@) == in_order(entry_views(entries@)),
        names_rise(entry_views(r@)),
        entry_views(r@).to_multiset() == entry_views(entries@).to_multiset(),
{
    let ghost given = entry_views(entries@);
    let mut sorted: Vec<DirEntry> = Vec::new();
    let mut keys: Vec<Vec<char>> = Vec::new();
    for e in it: entries
        invariant
            it.seq() == entries@,
            given == entry_views(entries@),
            keys@.len() == sorted@.len(),
            forall|i: int|
                0 <= i < keys@.len() ==> (#[trigger] keys@[i])@ == sort_key(sorted@[i]@),
            entry_views(sorted@) == in_order(given.take(it.index() as int)),
    {
        let lower = ascii_lower(e.name.as_str());
        let key = chars_of(lower.as_str());
        let ghost old_views = entry_views(sorted@);
        let ghost e_view = e@;
        let mut at: usize = sorted.len();
        assert(old_views.take(at as int) == old_views);
        assert(insert_entry(old_views, e_view) == insert_entry(old_views.take(at as int), e_view)
            + old_views.skip(at as int));
        while at > 0 && before(&key, &keys[at - 1])
            invariant
                at <= sorted@.len(),
                keys@.len() == sorted@.len(),
                key@ == sort_key(e_view),
                old_views == entry_views(sorted@),
                forall|i: int|
                    0 <= i < keys@.len() ==> (#[trigger] keys@[i])@ == sort_key(sorted@[i]@),
                insert_entry(old_views, e_view) == insert_entry(old_views.take(at as int), e_view)
                    + old_views.skip(at as int),
            decreases at,
        {
            proof {
                let now = old_views.take(at as int);
                assert(now.last() == sorted@[at - 1]@);
                assert(now.drop_last() == old_views.take(at - 1));
                assert(insert_entry(now, e_view) == insert_entry(
                    old_views.take(at - 1),
                    e_view,
                ).push(now.last()));
                assert(insert_entry(old_views.take(at - 1), e_view).push(now.last())
                    + old_views.skip(at as int) == insert_entry(old_views.take(at - 1), e_view)
                    + old_views.skip(at - 1));
            }
            at = at - 1;
        }
        proof {
            let now = old_views.take(at as int);
            if at > 0 {
                assert(now.last() == sorted@[at - 1]@);
            }
            assert(insert_entry(now, e_view) == now.push(e_view));
        }
        keys.insert(at, key);
        sorted.insert(at, e);
        proof {
            assert(entry_views(sorted@) == old_views.take(at as int).push(e_view)
                + old_views.skip(at as int));
            let next = given.take(it.index() + 1);
            assert(next.drop_last() == given.take(it.index() as int));
            assert(next.last() == e_view);
        }
    }
    assert(given.take(entries@.len() as int) == given);
    proof {
        law_listing_rises_by_name(given);
    }
    sorted
}

/// Not to come before another text in dictionary order is transitive.
proof fn lemma_not_before_trans(a: Seq<char>, b: Seq<char>, c: Seq<char>)
    requires
        !text_before(b, a),
        !text_before(c, b),
    ensures
        !text_before(c, a),
    decreases a.len(),
{
    if a.len() > 0 && b.len() > 0 && c.len() > 0 && a[0] == b[0] && b[0] == c[0] {
        lemma_not_before_trans(a.skip(1), b.skip(1), c.skip(1));
    }
}

/// Of two texts at most one comes before the other.
proof fn lemma_before_asym(a: Seq<char>, b: Seq<char>)
    requires
        text_before(a, b),
    ensures
        !text_before(b, a),
    decreases a.len(),
{
    if a.len() > 0 && b.len() > 0 && a[0] == b[0] {
        lemma_before_asym(a.skip(1), b.skip(1));
    }
}

/// Inserting an entry keeps a list ordered, and adds nothing but that entry.
proof fn lemma_insert_ordered(s: Seq<EntryView>, e: EntryView)
    requires
        is_ordered(s),
    ensures
        is_ordered(insert_entry(s, e)),
        insert_entry(s, e).len() == s.len() + 1,
        forall|i: int|
            0 <= i < s.len() + 1 ==> {
                let x = #[trigger] insert_entry(s, e)[i];
                x == e || exists|j: int| 0 <= j < s.len() && x == #[trigger] s[j]
            },
    decreases s.len(),
{
    let r = insert_entry(s, e);
    if s.len() > 0 && text_before(sort_key(e), sort_key(s.last())) {
        let d = s.drop_last();
        lemma_insert_ordered(d, e);
        lemma_before_asym(sort_key(e), sort_key(s.last()));
        let rd = insert_entry(d, e);
        assert(r == rd.push(s.last()));
        assert forall|i: int| 0 <= i < rd.len() implies !text_before(
            sort_key(s.last()),
            sort_key(#[trigger] rd[i]),
        ) by {
            if rd[i] != e {
                let j = choose|j: int| 0 <= j < d.len() && rd[i] == #[trigger] d[j];
                assert(d[j] == s[j]);
                assert(s.last() == s[s.len() - 1]);
            }
        }
        assert forall|i: int| 0 <= i < s.len() + 1 implies {
            let x = #[trigger] r[i];
            x == e || exists|j: int| 0 <= j < s.len() && x == #[trigger] s[j]
        } by {
            if i < rd.len() {
                assert(r[i] == rd[i]);
                if rd[i] != e {
                    let j = choose|j: int| 0 <= j < d.len() && rd[i] == #[trigger] d[j];
                    assert(r[i] == s[j]);
                }
            } else {
                assert(r[i] == s[s.len() - 1]);
            }
        }
    } else {
        assert(r == s.push(e));
        assert forall|i: int, j: int| 0 <= i < j < r.len() implies !text_before(
            sort_key(#[trigger] r[j]),
            sort_key(#[trigger] r[i]),
        ) by {
            if j == s.len() {
                if i < s.len() - 1 {
                    assert(!text_before(sort_key(s[s.len() - 1]), sort_key(s[i])));
                    lemma_not_before_trans(
                        sort_key(s[i]),
                        sort_key(s[s.len() - 1]),
                        sort_key(e),
                    );
                }
            }
        }
        assert forall|i: int| 0 <= i < s.len() + 1 implies {
            let x = #[trigger] r[i];
            x == e || exists|j: int| 0 <= j < s.len() && x == #[trigger] s[j]
        } by {
            if i < s.len() {
                assert(r[i] == s[i]);
            }
        }
    }
}

/// Inserting an entry adds it behind the entries that share its key, and moves no other.
proof fn lemma_insert_with_key(s: Seq<EntryView>, e: EntryView, key: Seq<char>)
    requires
        is_ordered(s),
    ensures
        with_key(insert_entry(s, e), key) == if sort_key(e) == key {
            with_key(s, key).push(e)
        } else {
            with_key(s, key)
        },
    decreases s.len(),
{
    let f = |x: EntryView| sort_key(x) == key;
    reveal(Seq::filter);
    if s.len() > 0 && text_before(sort_key(e), sort_key(s.last())) {
        let d = s.drop_last();
        lemma_insert_with_key(d, e, key);
        lemma_before_asym(sort_key(e), sort_key(s.last()));
        let rd = insert_entry(d, e);
        assert(insert_entry(s, e).drop_last() == rd);
        assert(insert_entry(s, e).last() == s.last());
        assert(sort_key(s.last()) != sort_key(e));
    } else {
        assert(insert_entry(s, e).drop_last() == s);
        assert(insert_entry(s, e).last() == e);
    }
}

/// The entries of a directory are listed in the order of their names in ASCII lower case.
pub proof fn law_in_order_is_ordered(s: Seq<EntryView>)
    ensures
        is_ordered(in_order(s)),
        in_order(s).len() == s.len(),
    decreases s.len(),
{
    if s.len() > 0 {
        law_in_order_is_ordered(s.drop_last());
        lemma_insert_ordered(in_order(s.drop_last()), s.last());
    }
}

/// Every listed entry is one of the directory's.
pub proof fn lemma_in_order_members(s: Seq<EntryView>, i: int)
    requires
        0 <= i < in_order(s).len(),
    ensures
        exists|j: int| 0 <= j < s.len() && in_order(s)[i] == #[trigger] s[j],
    decreases s.len(),
{
    if s.len() > 0 {
        let d = s.drop_last();
        law_in_order_is_ordered(d);
        lemma_insert_ordered(in_order(d), s.last());
        let x = in_order(s)[i];
        if x == s.last() {
            assert(x == s[s.len() - 1]);
        } else {
            let k = choose|k: int| 0 <= k < in_order(d).len() && x == #[trigger] in_order(d)[k];
            lemma_in_order_members(d, k);
            let j = choose|j: int| 0 <= j < d.len() && in_order(d)[k] == #[trigger] d[j];
            assert(x == s[j]);
        }
    }
}

/// Two texts with a common beginning are ordered by the first character in which they differ, and
/// a text comes before every longer one that begins with it.
pub proof fn law_texts_are_ordered_by_first_difference(
    common: Seq<char>,
    x: char,
    s: Seq<char>,
    y: char,
    t: Seq<char>,
)
    ensures
        x != y ==> (text_before(common + seq![x] + s, common + seq![y] + t) <==> x < y),
        text_before(common, common + seq![x] + s),
        !text_before(common + seq![x] + s, common),
        !text_before(common, common),
    decreases common.len(),
{
    let a = common + seq![x] + s;
    let b = common + seq![y] + t;
    if common.len() > 0 {
        let rest = common.skip(1);
        assert(a[0] == common[0] && b[0] == common[0]);
        assert(a.skip(1) == rest + seq![x] + s);
        assert(b.skip(1) == rest + seq![y] + t);
        law_texts_are_ordered_by_first_difference(rest, x, s, y, t);
    } else {
        assert(a[0] == x && b[0] == y);
    }
}

/// Of two different texts exactly one comes before the other.
pub proof fn law_text_order_is_total(a: Seq<char>, b: Seq<char>)
    requires
        a != b,
    ensures
        text_before(a, b) != text_before(b, a),
    decreases a.len(),
{
    if a.len() > 0 && b.len() > 0 && a[0] == b[0] {
        if a.skip(1) == b.skip(1) {
            assert(a == seq![a[0]] + a.skip(1));
            assert(b == seq![b[0]] + b.skip(1));
        }
        law_text_order_is_total(a.skip(1), b.skip(1));
    } else if a.len() == 0 && b.len() == 0 {
        assert(a == b);
    }
}

/// Whether two texts agree up to the index `k`, and there the first one ends or has the smaller
/// character.
pub open spec fn smaller_at(a: Seq<char>, b: Seq<char>, k: int) -> bool {
    &&& 0 <= k <= a.len()
    &&& k < b.len()
    &&& forall|i: int| 0 <= i < k ==> #[trigger] a[i] == b[i]
    &&& k == a.len() || a[k] < b[k]
}

/// Whether the names of a listing rise in ASCII lower case: those of any two entries are equal, or
/// the earlier one ends or has the smaller character where they first differ.
pub open spec fn names_rise(list: Seq<EntryView>) -> bool {
    forall|i: int, j: int|
        #![trigger list[i], list[j]]
        0 <= i < j < list.len() ==> {
            let a = lowered(list[i].name);
            let b = lowered(list[j].name);
            a == b || exists|k: int| smaller_at(a, b, k)
        }
}

/// Where a text comes before another, there is a first difference that says so.
proof fn lemma_before_has_difference(a: Seq<char>, b: Seq<char>)
    requires
        text_before(a, b),
    ensures
        exists|k: int| smaller_at(a, b, k),
    decreases a.len(),
{
    if a.len() == 0 || a[0] != b[0] {
        assert(smaller_at(a, b, 0));
    } else {
        lemma_before_has_difference(a.skip(1), b.skip(1));
        let k = choose|k: int| smaller_at(a.skip(1), b.skip(1), k);
        assert forall|i: int| 0 <= i < k + 1 implies #[trigger] a[i] == b[i] by {
            if i > 0 {
                assert(a.skip(1)[i - 1] == b.skip(1)[i - 1]);
            }
        }
        assert(smaller_at(a, b, k + 1));
    }
}

proof fn lemma_insert_multiset(s: Seq<EntryView>, e: EntryView)
    ensures
        insert_entry(s, e).to_multiset() == s.to_multiset().insert(e),
    decreases s.len(),
{
    broadcast use vstd::seq_lib::group_to_multiset_ensures;

    if s.len() > 0 && text_before(sort_key(e), sort_key(s.last())) {
        lemma_insert_multiset(s.drop_last(), e);
        assert(s == s.drop_last().push(s.last()));
        assert(s.drop_last().to_multiset().insert(e).insert(s.last())
            =~= s.drop_last().to_multiset().insert(s.last()).insert(e));
    }
}

/// A listing rises by the whole names in ASCII lower case, and holds the entries of the directory,
/// each as often as it was there.
pub proof fn law_listing_rises_by_name(s: Seq<EntryView>)
    ensures
        names_rise(in_order(s)),
        in_order(s).to_multiset() == s.to_multiset(),
    decreases s.len(),
{
    broadcast use vstd::seq_lib::group_to_multiset_ensures;

    law_in_order_is_ordered(s);
    let list = in_order(s);
    assert forall|i: int, j: int|
        #![trigger list[i], list[j]]
        0 <= i < j < list.len() implies {
        let a = lowered(list[i].name);
        let b = lowered(list[j].name);
        a == b || exists|k: int| smaller_at(a, b, k)
    } by {
        let a = sort_key(list[i]);
        let b = sort_key(list[j]);
        assert(!text_before(b, a));
        if a != b {
            law_text_order_is_total(a, b);
            lemma_before_has_difference(a, b);
        }
    }
    if s.len() > 0 {
        law_listing_rises_by_name(s.drop_last());
        lemma_insert_multiset(in_order(s.drop_last()), s.last());
        assert(s == s.drop_last().push(s.last()));
    } else {
        assert(in_order(s) =~= s);
    }
}

/// The entries whose names are `name` in ASCII lower case, in the order of the list.
pub open spec fn same_named(list: Seq<EntryView>, name: Seq<char>) -> Seq<EntryView> {
    list.filter(|e: EntryView| lowered(e.name) == name)
}

/// Entries whose names are the same in ASCII lower case are listed in the order in which they were
/// read.
pub proof fn law_equal_names_keep_their_order(s: Seq<EntryView>, name: Seq<char>)
    ensures
        same_named(in_order(s), name) == same_named(s, name),
{
    law_in_order_is_stable(s, name);
    let f = |e: EntryView| lowered(e.name) == name;
    let g = |e: EntryView| sort_key(e) == name;
    assert(f =~= g);
}

/// Ordering the entries loses none and adds none, and entries whose names differ only in the
/// case of ASCII letters keep the order in which they came.
pub proof fn law_in_order_is_stable(s: Seq<EntryView>, key: Seq<char>)
    ensures
        with_key(in_order(s), key) == with_key(s, key),
    decreases s.len(),
{
    reveal(Seq::filter);
    if s.len() > 0 {
        law_in_order_is_stable(s.drop_last(), key);
        law_in_order_is_ordered(s.drop_last());
        lemma_insert_with_key(in_order(s.drop_last()), s.last(), key);
    }
}

/// An entry of a listing is the entry that was read, with its handle, its name and its kind.
pub proof fn law_entries_are_those_that_were_read(entries: Seq<DirEntry>, i: int)
    requires
        0 <= i < entries.len(),
    ensures
        entry_views(entries).len() == entries.len(),
        entry_views(entries)[i].id == entries[i].id,
        entry_views(entries)[i].name == entries[i].name@,
        entry_views(entries)[i].kind == entries[i].kind,
{
}

} // verus!
