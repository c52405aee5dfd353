//! Directory listings: which entries are shown, and in what order.
//!
//! A listing starts with the parent pseudo-entry `..`. Behind it come the
//! entries of the directory in four groups (hidden directories, other
//! directories, hidden files, other files), each group in ascending order of
//! the ASCII-lower-cased name. Entries whose keys are equal keep the order in
//! which the directory was read. The pseudo-entry is part of every listing,
//! also of the root's, where it leads to the root itself.

use crate::path::{dot, dot_dot};
use crate::text::{
    chars_contain, chars_precede, has_substring, lemma_not_after_transitive,
    lemma_precedes_irreflexive, lemma_precedes_total, lemma_precedes_transitive, lower,
    lowered_chars, precedes, to_chars,
};
use crate::views::{
    lemma_deep_view_empty, lemma_deep_view_insert, lemma_deep_view_push,
    lemma_deep_view_take_all, lemma_deep_view_take_next,
};
use vstd::prelude::*;

verus! {

/// One child of a directory, or the parent pseudo-entry.
#[derive(Debug, PartialEq, Eq)]
pub struct Entry {
    /// The name as the file system has it.
    pub name: String,
    /// Whether the entry is, or leads to, a directory.
    pub is_dir: bool,
    /// The size in bytes; 0 for directories.
    pub size: u64,
}

/// An entry as contracts see it.
pub struct EntryView {
    pub name: Seq<char>,
    pub is_dir: bool,
    pub size: u64,
}

impl DeepView for Entry {
    type V = EntryView;

    open spec fn deep_view(&self) -> EntryView {
        EntryView { name: self.name@, is_dir: self.is_dir, size: self.size }
    }
}

impl View for Entry {
    type V = EntryView;

    open spec fn view(&self) -> EntryView {
        self.deep_view()
    }
}

impl Clone for Entry {
    fn clone(&self) -> (r: Self)
        ensures
            r@ == self@,
    {
        Entry { name: self.name.clone(), is_dir: self.is_dir, size: self.size }
    }
}

/// A name that starts with `.`.
pub open spec fn is_hidden(name: Seq<char>) -> bool {
    name.len() > 0 && name[0] == '.'
}

/// The pseudo-entry that leads to the parent directory.
pub open spec fn parent_entry() -> EntryView {
    EntryView { name: dot_dot(), is_dir: true, size: 0 }
}

/// The group of an entry: 0 for hidden directories, 1 for other
/// directories, 2 for hidden files, 3 for other files.
pub open spec fn group_of(e: EntryView) -> int {
    if e.is_dir {
        if is_hidden(e.name) {
            0
        } else {
            1
        }
    } else {
        if is_hidden(e.name) {
            2
        } else {
            3
        }
    }
}

/// `a` has to stand before `b`: its group is earlier, or the groups are the
/// same and its lower-cased name precedes that of `b`.
pub open spec fn comes_before(a: EntryView, b: EntryView) -> bool {
    group_of(a) < group_of(b) || (group_of(a) == group_of(b) && precedes(
        lower(a.name),
        lower(b.name),
    ))
}

/// No element of `s` has to stand before an earlier one.
pub open spec fn in_order(s: Seq<EntryView>) -> bool {
    forall|i: int, j: int| 0 <= i < j < s.len() ==> !comes_before(#[trigger] s[j], #[trigger] s[i])
}

/// Whether a raw directory entry is shown: never `.` or `..`, and hidden
/// entries only when `show_hidden` is set.
pub open spec fn is_listable(e: EntryView, show_hidden: bool) -> bool {
    &&& e.name != dot()
    &&& e.name != dot_dot()
    &&& (show_hidden || !is_hidden(e.name))
}

/// Where `e` goes into the ordered sequence `s`: behind the last element
/// that it does not have to stand before.
pub open spec fn slot(s: Seq<EntryView>, e: EntryView) -> int
    decreases s.len(),
{
    if s.len() > 0 && comes_before(e, s.last()) {
        slot(s.drop_last(), e)
    } else {
        s.len() as int
    }
}

/// The entries of `raw` that are shown, in listing order.
pub open spec fn arranged(raw: Seq<EntryView>, show_hidden: bool) -> Seq<EntryView>
    decreases raw.len(),
{
    if raw.len() == 0 {
        Seq::empty()
    } else {
        let rest = arranged(raw.drop_last(), show_hidden);
        if is_listable(raw.last(), show_hidden) {
            rest.insert(slot(rest, raw.last()), raw.last())
        } else {
            rest
        }
    }
}

/// The listing of a directory whose raw entries are `raw`.
pub open spec fn listing_of(raw: Seq<EntryView>, show_hidden: bool) -> Seq<EntryView> {
    seq![parent_entry()] + arranged(raw, show_hidden)
}

/// The entries of `listing` whose names contain `needle`, in their order.
/// The comparison is exact: upper and lower case differ.
pub open spec fn filtered(listing: Seq<EntryView>, needle: Seq<char>) -> Seq<EntryView> {
    listing.filter(|e: EntryView| has_substring(e.name, needle))
}

/// What holds of every listing: the parent pseudo-entry comes first, what
/// follows is in order, and nothing that follows is named `.` or `..`.
pub open spec fn is_listing(l: Seq<EntryView>) -> bool {
    &&& l.len() > 0
    &&& l[0] == parent_entry()
    &&& in_order(l.skip(1))
    &&& forall|i: int|
        1 <= i < l.len() ==> (#[trigger] l[i]).name != dot() && l[i].name != dot_dot()
}

/// Of two entries at most one has to stand before the other.
pub proof fn lemma_comes_before_asymmetric(a: EntryView, b: EntryView)
    requires
        comes_before(a, b),
    ensures
        !comes_before(b, a),
{
    if comes_before(b, a) {
        lemma_precedes_transitive(lower(a.name), lower(b.name), lower(a.name));
        lemma_precedes_irreflexive(lower(a.name));
    }
}

/// If `a` may stand before `b` and `b` before `c`, then `a` may stand
/// before `c`.
pub proof fn lemma_order_transitive(a: EntryView, b: EntryView, c: EntryView)
    requires
        !comes_before(b, a),
        !comes_before(c, b),
    ensures
        !comes_before(c, a),
{
    if group_of(a) == group_of(b) && group_of(b) == group_of(c) {
        lemma_not_after_transitive(lower(a.name), lower(b.name), lower(c.name));
    }
}

/// The slot lies within the sequence; `e` has to stand before everything
/// behind the slot, and not before the element just in front of it.
pub proof fn lemma_slot(s: Seq<EntryView>, e: EntryView)
    ensures
        0 <= slot(s, e) <= s.len(),
        forall|k: int| slot(s, e) <= k < s.len() ==> comes_before(e, #[trigger] s[k]),
        slot(s, e) > 0 ==> !comes_before(e, s[slot(s, e) - 1]),
    decreases s.len(),
{
    if s.len() > 0 && comes_before(e, s.last()) {
        lemma_slot(s.drop_last(), e);
        assert forall|k: int| slot(s, e) <= k < s.len() implies comes_before(
            e,
            #[trigger] s[k],
        ) by {
            if k < s.len() - 1 {
                assert(s.drop_last()[k] == s[k]);
            }
        }
    }
}

/// Putting an entry into its slot keeps an ordered sequence ordered.
pub proof fn lemma_insert_keeps_order(s: Seq<EntryView>, e: EntryView)
    requires
        in_order(s),
    ensures
        in_order(s.insert(slot(s, e), e)),
{
    lemma_slot(s, e);
    let p = slot(s, e);
    let t = s.insert(p, e);
    s.insert_ensures(p, e);
    assert forall|i: int, j: int| 0 <= i < j < t.len() implies !comes_before(
        #[trigger] t[j],
        #[trigger] t[i],
    ) by {
        if j < p {
            assert(t[i] == s[i] && t[j] == s[j]);
        } else if j == p {
            assert(t[i] == s[i]);
            assert(!comes_before(e, s[p - 1]));
            if i < p - 1 {
                assert(!comes_before(s[p - 1], s[i]));
                lemma_order_transitive(s[i], s[p - 1], e);
            }
        } else {
            assert(t[j] == s[j - 1]);
            if i == p {
                assert(comes_before(e, s[j - 1]));
                lemma_comes_before_asymmetric(e, s[j - 1]);
            } else if i < p {
                assert(t[i] == s[i]);
            } else {
                assert(t[i] == s[i - 1]);
            }
        }
    }
}

/// The arranged entries are in order.
pub proof fn lemma_arranged_in_order(raw: Seq<EntryView>, show_hidden: bool)
    ensures
        in_order(arranged(raw, show_hidden)),
    decreases raw.len(),
{
    if raw.len() > 0 {
        lemma_arranged_in_order(raw.drop_last(), show_hidden);
        if is_listable(raw.last(), show_hidden) {
            lemma_insert_keeps_order(arranged(raw.drop_last(), show_hidden), raw.last());
        }
    }
}

/// The arranged entries are exactly the listable raw entries, each as often
/// as it was read.
pub proof fn lemma_arranged_permutes(raw: Seq<EntryView>, show_hidden: bool)
    ensures
        arranged(raw, show_hidden).to_multiset() == raw.filter(
            |e: EntryView| is_listable(e, show_hidden),
        ).to_multiset(),
    decreases raw.len(),
{
    broadcast use vstd::seq_lib::to_multiset_build, vstd::seq_lib::to_multiset_insert;

    let pred = |e: EntryView| is_listable(e, show_hidden);
    if raw.len() == 0 {
        assert(raw.filter(pred) =~= Seq::<EntryView>::empty());
    } else {
        let init = raw.drop_last();
        let rest = arranged(init, show_hidden);
        lemma_arranged_permutes(init, show_hidden);
        assert(raw =~= init.push(raw.last()));
        init.lemma_filter_push(raw.last(), pred);
        if is_listable(raw.last(), show_hidden) {
            lemma_slot(rest, raw.last());
        }
    }
}

/// `a` and `b` have the same place in the order: the same group and, but
/// for the case of ASCII letters, the same name.
pub open spec fn same_key(a: EntryView, b: EntryView) -> bool {
    group_of(a) == group_of(b) && lower(a.name) == lower(b.name)
}

/// Entries with the same key are exactly those of which neither has to
/// stand before the other.
pub proof fn lemma_same_key(a: EntryView, b: EntryView)
    ensures
        same_key(a, b) <==> !comes_before(a, b) && !comes_before(b, a),
{
    if same_key(a, b) {
        lemma_precedes_irreflexive(lower(a.name));
    } else if !comes_before(a, b) && !comes_before(b, a) {
        lemma_precedes_total(lower(a.name), lower(b.name));
    }
}

/// Putting an entry into its slot puts it behind every entry with the same
/// key.
proof fn lemma_insert_behind_same_key(s: Seq<EntryView>, x: EntryView, e: EntryView)
    ensures
        s.insert(slot(s, x), x).filter(|y: EntryView| same_key(y, e)) == if same_key(x, e) {
            s.filter(|y: EntryView| same_key(y, e)).push(x)
        } else {
            s.filter(|y: EntryView| same_key(y, e))
        },
{
    let pred = |y: EntryView| same_key(y, e);
    let p = slot(s, x);
    lemma_slot(s, x);
    let front = s.take(p);
    let back = s.skip(p);
    assert(s =~= front + back);
    assert(s.insert(p, x) =~= front.push(x) + back);
    Seq::filter_distributes_over_add(front, back, pred);
    Seq::filter_distributes_over_add(front.push(x), back, pred);
    front.lemma_filter_push(x, pred);
    if same_key(x, e) {
        assert forall|k: int| 0 <= k < back.len() implies !pred(#[trigger] back[k]) by {
            assert(back[k] == s[p + k]);
            assert(comes_before(x, s[p + k]));
            lemma_same_key(x, s[p + k]);
        }
        assert(back.all(|y: EntryView| !pred(y)));
        back.lemma_all_neg_filter_empty(pred);
        assert(back.filter(pred) =~= Seq::<EntryView>::empty());
        assert(front.filter(pred).push(x) + back.filter(pred) =~= front.filter(pred).push(x));
        assert(front.filter(pred) + back.filter(pred) =~= front.filter(pred));
    }
}

/// The order is stable: entries with the same key stand in the listing in
/// the order in which the directory was read.
pub proof fn lemma_arranged_is_stable(raw: Seq<EntryView>, show_hidden: bool, e: EntryView)
    ensures
        arranged(raw, show_hidden).filter(|y: EntryView| same_key(y, e)) == raw.filter(
            |y: EntryView| is_listable(y, show_hidden),
        ).filter(|y: EntryView| same_key(y, e)),
    decreases raw.len(),
{
    let keep = |y: EntryView| is_listable(y, show_hidden);
    let pred = |y: EntryView| same_key(y, e);
    if raw.len() == 0 {
        assert(raw.filter(keep) =~= Seq::<EntryView>::empty());
        assert(arranged(raw, show_hidden).filter(pred) =~= Seq::<EntryView>::empty());
        assert(raw.filter(keep).filter(pred) =~= Seq::<EntryView>::empty());
    } else {
        let init = raw.drop_last();
        let last = raw.last();
        lemma_arranged_is_stable(init, show_hidden, e);
        assert(raw =~= init.push(last));
        init.lemma_filter_push(last, keep);
        if is_listable(last, show_hidden) {
            lemma_insert_behind_same_key(arranged(init, show_hidden), last, e);
            init.filter(keep).lemma_filter_push(last, pred);
        }
    }
}

/// Every arranged entry is listable.
pub proof fn lemma_arranged_listable(raw: Seq<EntryView>, show_hidden: bool)
    ensures
        forall|i: int|
            0 <= i < arranged(raw, show_hidden).len() ==> is_listable(
                #[trigger] arranged(raw, show_hidden)[i],
                show_hidden,
            ),
    decreases raw.len(),
{
    if raw.len() > 0 {
        let rest = arranged(raw.drop_last(), show_hidden);
        lemma_arranged_listable(raw.drop_last(), show_hidden);
        if is_listable(raw.last(), show_hidden) {
            lemma_slot(rest, raw.last());
            rest.insert_ensures(slot(rest, raw.last()), raw.last());
            let t = arranged(raw, show_hidden);
            let p = slot(rest, raw.last());
            assert forall|i: int| 0 <= i < t.len() implies is_listable(
                #[trigger] t[i],
                show_hidden,
            ) by {
                if i < p {
                    assert(t[i] == rest[i]);
                } else if i > p {
                    assert(t[i] == rest[i - 1]);
                }
            }
        }
    }
}

/// Every listing starts with the parent pseudo-entry and is in order behind
/// it, whatever the directory holds and whether or not hidden entries are
/// shown.
pub proof fn lemma_listing_is_ordered(raw: Seq<EntryView>, show_hidden: bool)
    ensures
        is_listing(listing_of(raw, show_hidden)),
{
    let l = listing_of(raw, show_hidden);
    lemma_arranged_in_order(raw, show_hidden);
    lemma_arranged_listable(raw, show_hidden);
    assert(l.skip(1) =~= arranged(raw, show_hidden));
    assert forall|i: int| 1 <= i < l.len() implies (#[trigger] l[i]).name != dot() && l[i].name
        != dot_dot() by {
        assert(l[i] == arranged(raw, show_hidden)[i - 1]);
    }
}

/// A listing made without hidden entries shows none.
pub proof fn lemma_hidden_are_left_out(raw: Seq<EntryView>)
    ensures
        forall|i: int|
            1 <= i < listing_of(raw, false).len() ==> !is_hidden(
                (#[trigger] listing_of(raw, false)[i]).name,
            ),
{
    let l = listing_of(raw, false);
    lemma_arranged_listable(raw, false);
    assert forall|i: int| 1 <= i < l.len() implies !is_hidden((#[trigger] l[i]).name) by {
        assert(l[i] == arranged(raw, false)[i - 1]);
    }
}

impl Entry {
    /// The parent pseudo-entry.
    pub fn parent() -> (e: Entry)
        ensures
            e@ == parent_entry(),
    {
        let name = String::from_str("..");
        proof {
            reveal_strlit("..");
            assert(name@ =~= dot_dot());
        }
        Entry { name, is_dir: true, size: 0 }
    }

    /// Whether the name starts with `.`.
    pub fn is_hidden(&self) -> (r: bool)
        ensures
            r == is_hidden(self@.name),
    {
        let chars = to_chars(self.name.as_str());
        chars.len() > 0 && chars[0] == '.'
    }

    /// Whether this is the parent pseudo-entry, by its name.
    pub fn is_parent(&self) -> (r: bool)
        ensures
            r == (self@.name == dot_dot()),
    {
        let chars = to_chars(self.name.as_str());
        let r = chars.len() == 2 && chars[0] == '.' && chars[1] == '.';
        assert(r == (chars@ == dot_dot())) by {
            if r {
                assert(chars@ =~= dot_dot());
            }
        }
        r
    }

    /// The group of the entry, 0 to 3.
    pub fn group(&self) -> (g: u8)
        ensures
            g == group_of(self@),
    {
        let hidden = self.is_hidden();
        if self.is_dir {
            if hidden {
                0
            } else {
                1
            }
        } else {
            if hidden {
                2
            } else {
                3
            }
        }
    }

    /// Whether the entry is shown in a listing.
    pub fn is_listable(&self, show_hidden: bool) -> (r: bool)
        ensures
            r == is_listable(self@, show_hidden),
    {
        let chars = to_chars(self.name.as_str());
        let is_dot = chars.len() == 1 && chars[0] == '.';
        assert(is_dot == (chars@ == dot())) by {
            if is_dot {
                assert(chars@ =~= dot());
            }
        }
        !is_dot && !self.is_parent() && (show_hidden || !self.is_hidden())
    }
}

/// Orders the raw entries of a directory into a listing. `raw` holds the
/// entries in the order in which the directory was read.
pub fn list_entries(raw: &Vec<Entry>, show_hidden: bool) -> (listing: Vec<Entry>)
    ensures
        listing.deep_view() == listing_of(raw.deep_view(), show_hidden),
        is_listing(listing.deep_view()),
        listing.deep_view().skip(1).to_multiset() == raw.deep_view().filter(
            |e: EntryView| is_listable(e, show_hidden),
        ).to_multiset(),
{
    let mut out: Vec<Entry> = Vec::new();
    let mut groups: Vec<u8> = Vec::new();
    let mut keys: Vec<Vec<char>> = Vec::new();
    let mut i: usize = 0;
    proof {
        lemma_deep_view_empty(out);
        assert(raw.deep_view().take(0) =~= Seq::<EntryView>::empty());
    }
    while i < raw.len()
        invariant
            i <= raw.len(),
            groups.len() == out.len(),
            keys.len() == out.len(),
            out.deep_view() == arranged(raw.deep_view().take(i as int), show_hidden),
            forall|k: int| 0 <= k < out.len() ==> (#[trigger] groups[k]) == group_of(out@[k]@),
            forall|k: int| 0 <= k < out.len() ==> (#[trigger] keys[k])@ == lower(out@[k]@.name),
        decreases raw.len() - i,
    {
        proof {
            lemma_deep_view_take_next(*raw, i as int);
        }
        if raw[i].is_listable(show_hidden) {
            let e = raw[i].clone();
            let g = e.group();
            let key = lowered_chars(e.name.as_str());
            let ghost shown = out.deep_view();
            let mut p: usize = out.len();
            assert(shown.take(p as int) =~= shown);
            while p > 0 && (g < groups[p - 1] || (g == groups[p - 1] && chars_precede(
                &key,
                &keys[p - 1],
            )))
                invariant
                    p <= out.len(),
                    groups.len() == out.len(),
                    keys.len() == out.len(),
                    shown == out.deep_view(),
                    g == group_of(e@),
                    key@ == lower(e@.name),
                    slot(shown, e@) == slot(shown.take(p as int), e@),
                    forall|k: int|
                        0 <= k < out.len() ==> (#[trigger] groups[k]) == group_of(out@[k]@),
                    forall|k: int|
                        0 <= k < out.len() ==> (#[trigger] keys[k])@ == lower(out@[k]@.name),
                decreases p,
            {
                assert(shown.take(p as int).last() == out@[p - 1]@);
                assert(shown.take(p as int).drop_last() =~= shown.take(p - 1));
                p -= 1;
            }
            assert(slot(shown, e@) == p) by {
                if p > 0 {
                    assert(shown.take(p as int).last() == out@[p - 1]@);
                }
            }
            let ghost before = out;
            out.insert(p, e);
            groups.insert(p, g);
            keys.insert(p, key);
            proof {
                lemma_deep_view_insert(before, out, p as int, e);
                before@.insert_ensures(p as int, e);
                assert forall|k: int| 0 <= k < out.len() implies (#[trigger] groups[k])
                    == group_of(out@[k]@) by {
                    if k > p {
                        assert(out@[k] == before@[k - 1]);
                    } else if k < p {
                        assert(out@[k] == before@[k]);
                    }
                }
                assert forall|k: int| 0 <= k < out.len() implies (#[trigger] keys[k])@ == lower(
                    out@[k]@.name,
                ) by {
                    if k > p {
                        assert(out@[k] == before@[k - 1]);
                    } else if k < p {
                        assert(out@[k] == before@[k]);
                    }
                }
            }
        }
        i += 1;
    }
    let ghost middle = out;
    let first = Entry::parent();
    out.insert(0, first);
    proof {
        lemma_deep_view_take_all(*raw);
        lemma_deep_view_insert(middle, out, 0, first);
        assert(out.deep_view() =~= listing_of(raw.deep_view(), show_hidden));
        lemma_listing_is_ordered(raw.deep_view(), show_hidden);
        lemma_arranged_permutes(raw.deep_view(), show_hidden);
        assert(out.deep_view().skip(1) =~= arranged(raw.deep_view(), show_hidden));
    }
    out
}

/// Keeps the entries whose names contain `needle`, in their order.
pub fn filter_entries(listing: &Vec<Entry>, needle: &str) -> (kept: Vec<Entry>)
    ensures
        kept.deep_view() == filtered(listing.deep_view(), needle@),
{
    let wanted = to_chars(needle);
    let ghost pred = |e: EntryView| has_substring(e.name, needle@);
    let mut kept: Vec<Entry> = Vec::new();
    let mut i: usize = 0;
    proof {
        lemma_deep_view_empty(kept);
        assert(listing.deep_view().take(0) =~= Seq::<EntryView>::empty());
        assert(Seq::<EntryView>::empty().filter(pred) =~= Seq::<EntryView>::empty());
    }
    while i < listing.len()
        invariant
            i <= listing.len(),
            wanted@ == needle@,
            pred == (|e: EntryView| has_substring(e.name, needle@)),
            kept.deep_view() == listing.deep_view().take(i as int).filter(pred),
        decreases listing.len() - i,
    {
        proof {
            lemma_deep_view_take_next(*listing, i as int);
            listing.deep_view().take(i as int).lemma_filter_push(listing@[i as int]@, pred);
        }
        let name = to_chars(listing[i].name.as_str());
        if chars_contain(&name, &wanted) {
            let ghost before = kept;
            let e = listing[i].clone();
            kept.push(e);
            proof {
                lemma_deep_view_push(before, kept, e);
            }
        }
        i += 1;
    }
    proof {
        lemma_deep_view_take_all(*listing);
    }
    kept
}

/// Every entry that a filter keeps has the text in its name, and stood in
/// the listing that was filtered.
pub proof fn lemma_filtered_entries(listing: Seq<EntryView>, needle: Seq<char>, i: int)
    requires
        0 <= i < filtered(listing, needle).len(),
    ensures
        has_substring(filtered(listing, needle)[i].name, needle),
        listing.contains(filtered(listing, needle)[i]),
{
    let pred = |e: EntryView| has_substring(e.name, needle);
    listing.lemma_filter_pred(pred, i);
    assert(listing.filter(pred).contains(listing.filter(pred)[i]));
    listing.lemma_filter_contains_rev(pred, listing.filter(pred)[i]);
}

} // verus!
