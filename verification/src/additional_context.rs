//! The additional-context store of a thread: host-supplied context values keyed by
//! name. Merging a new set of values yields a prompt fragment for each value that is
//! new or changed, and the new set replaces the stored one.

use vstd::prelude::*;

verus! {

/// Who supplied a context value, which decides the role of its prompt fragment.
#[derive(Clone, Copy, Debug, PartialEq, Eq, Structural)]
pub enum AdditionalContextKind {
    /// Supplied by the user's environment: delivered as user content.
    Untrusted,
    /// Supplied by the application: delivered as developer content.
    Application,
}

pub struct AdditionalContextEntry {
    pub kind: AdditionalContextKind,
    pub value: String,
}

/// A prompt fragment carrying one context value.
pub enum ContextFragment {
    User { key: String, value: String },
    Developer { key: String, value: String },
}

pub type EntryView = (AdditionalContextKind, Seq<char>);

pub enum FragmentView {
    User { key: Seq<char>, value: Seq<char> },
    Developer { key: Seq<char>, value: Seq<char> },
}

pub open spec fn entry_view(e: (String, AdditionalContextEntry)) -> (Seq<char>, EntryView) {
    (e.0@, (e.1.kind, e.1.value@))
}

pub open spec fn entries_view(s: Seq<(String, AdditionalContextEntry)>) -> Seq<(Seq<char>, EntryView)> {
    s.map_values(|e: (String, AdditionalContextEntry)| entry_view(e))
}

pub open spec fn fragment_view(f: ContextFragment) -> FragmentView {
    match f {
        ContextFragment::User { key, value } => FragmentView::User { key: key@, value: value@ },
        ContextFragment::Developer { key, value } => FragmentView::Developer { key: key@, value: value@ },
    }
}

pub open spec fn fragments_view(s: Seq<ContextFragment>) -> Seq<FragmentView> {
    s.map_values(|f: ContextFragment| fragment_view(f))
}

/// No key occurs twice (as in a map).
pub open spec fn distinct_keys(s: Seq<(Seq<char>, EntryView)>) -> bool {
    forall|i: int, j: int| 0 <= i < s.len() && 0 <= j < s.len() && i != j ==> s[i].0 != s[j].0
}

/// The order of `String` keys in an ordered map: lexicographic by code point, which
/// is the byte order of their UTF-8 encodings; a proper prefix comes first.
pub open spec fn key_less(a: Seq<char>, b: Seq<char>) -> bool
    decreases a.len(),
{
    if a.len() == 0 {
        b.len() > 0
    } else if b.len() == 0 {
        false
    } else if a[0] != b[0] {
        (a[0] as int) < (b[0] as int)
    } else {
        key_less(a.drop_first(), b.drop_first())
    }
}

/// The entries are in strictly ascending key order, as an ordered map walks them.
pub open spec fn keys_ascending(s: Seq<(Seq<char>, EntryView)>) -> bool {
    forall|i: int, j: int| 0 <= i < j < s.len() ==> key_less(#[trigger] s[i].0, #[trigger] s[j].0)
}

/// No key is ordered before itself.
pub proof fn lemma_key_less_irreflexive(a: Seq<char>)
    ensures
        !key_less(a, a),
    decreases a.len(),
{
    if a.len() > 0 {
        lemma_key_less_irreflexive(a.drop_first());
    }
}

/// Entries in strictly ascending key order have distinct keys.
pub proof fn lemma_ascending_keys_are_distinct(s: Seq<(Seq<char>, EntryView)>)
    requires
        keys_ascending(s),
    ensures
        distinct_keys(s),
{
    assert forall|i: int, j: int| 0 <= i < s.len() && 0 <= j < s.len() && i != j implies s[i].0 != s[j].0 by {
        lemma_key_less_irreflexive(s[i].0);
        if i < j {
            assert(key_less(s[i].0, s[j].0));
        } else {
            assert(key_less(s[j].0, s[i].0));
        }
    }
}

/// The entry stored under `key`.
pub open spec fn lookup(s: Seq<(Seq<char>, EntryView)>, key: Seq<char>) -> Option<EntryView>
    decreases s.len(),
{
    if s.len() == 0 {
        None
    } else if s.last().0 == key {
        Some(s.last().1)
    } else {
        lookup(s.drop_last(), key)
    }
}

/// The fragment that delivers one entry.
pub open spec fn fragment_for(key: Seq<char>, e: EntryView) -> FragmentView {
    match e.0 {
        AdditionalContextKind::Untrusted => FragmentView::User { key, value: e.1 },
        AdditionalContextKind::Application => FragmentView::Developer { key, value: e.1 },
    }
}

/// The fragments of a merge: one for each new entry, in order, whose value differs
/// from what `stored` holds under its key.
pub open spec fn merge_fragments(stored: Seq<(Seq<char>, EntryView)>, values: Seq<(Seq<char>, EntryView)>) -> Seq<FragmentView>
    decreases values.len(),
{
    if values.len() == 0 {
        Seq::empty()
    } else {
        let rest = merge_fragments(stored, values.drop_last());
        let (k, e) = values.last();
        if lookup(stored, k) == Some(e) {
            rest
        } else {
            rest.push(fragment_for(k, e))
        }
    }
}

/// The context values last delivered to a thread.
pub struct AdditionalContextStore {
    values: Vec<(String, AdditionalContextEntry)>,
}

impl AdditionalContextStore {
    /// The store holds its entries as an ordered map does: in strictly ascending key order.
    #[verifier::type_invariant]
    closed spec fn in_key_order(&self) -> bool {
        keys_ascending(entries_view(self.values@))
    }

    /// The stored entries, in key order.
    pub closed spec fn view(&self) -> Seq<(Seq<char>, EntryView)> {
        entries_view(self.values@)
    }

    pub fn new() -> (r: Self)
        ensures
            r.view().len() == 0,
            keys_ascending(r.view()),
    {
        AdditionalContextStore { values: Vec::new() }
    }

    fn stored(&self, key: &String) -> (r: Option<&AdditionalContextEntry>)
        ensures
            match r {
                Some(e) => lookup(self.view(), key@) == Some((e.kind, e.value@)),
                None => lookup(self.view(), key@) is None,
            },
    {
        let n = self.values.len();
        let mut i = n;
        assert(self.view().len() == n);
        assert(self.view().subrange(0, n as int) =~= self.view());
        while i > 0
            invariant
                n == self.values@.len(),
                i <= n,
                lookup(self.view(), key@) == lookup(self.view().subrange(0, i as int), key@),
            decreases i,
        {
            let ghost prefix = self.view().subrange(0, i as int);
            assert(prefix.last() == entry_view(self.values@[i - 1]));
            if self.values[i - 1].0 == *key {
                return Some(&self.values[i - 1].1);
            }
            assert(prefix.drop_last() =~= self.view().subrange(0, i - 1));
            i = i - 1;
        }
        None
    }

    /// Merges a new set of values, given as an ordered map walks them: in strictly
    /// ascending key order. Returns the fragments for the values that are new or
    /// changed, in key order, and keeps the new set.
    pub fn merge(&mut self, values: Vec<(String, AdditionalContextEntry)>) -> (r: Vec<ContextFragment>)
        requires
            keys_ascending(entries_view(values@)),
        ensures
            keys_ascending(final(self).view()),
            fragments_view(r@) == merge_fragments(old(self).view(), entries_view(values@)),
            final(self).view() == entries_view(values@),
    {
        let mut fragments: Vec<ContextFragment> = Vec::new();
        let n = values.len();
        let mut i: usize = 0;
        while i < n
            invariant
                n == values@.len(),
                i <= n,
                fragments_view(fragments@) == merge_fragments(self.view(), entries_view(values@).subrange(0, i as int)),
            decreases n - i,
        {
            let ghost vs = entries_view(values@);
            assert(vs.subrange(0, i + 1).drop_last() =~= vs.subrange(0, i as int));
            assert(vs.subrange(0, i + 1).last() == entry_view(values@[i as int]));
            let key = &values[i].0;
            let entry = &values[i].1;
            let unchanged = match self.stored(key) {
                Some(e) => e.kind == entry.kind && e.value == entry.value,
                None => false,
            };
            if !unchanged {
                let f = match entry.kind {
                    AdditionalContextKind::Untrusted => ContextFragment::User { key: key.clone(), value: entry.value.clone() },
                    AdditionalContextKind::Application => ContextFragment::Developer { key: key.clone(), value: entry.value.clone() },
                };
                fragments.push(f);
            }
            assert(fragments_view(fragments@) =~= merge_fragments(self.view(), vs.subrange(0, i + 1)));
            i = i + 1;
        }
        assert(entries_view(values@).subrange(0, n as int) =~= entries_view(values@));
        self.values = values;
        fragments
    }
}

/// With distinct keys, looking up the key of entry `i` finds entry `i`.
pub proof fn lemma_lookup_distinct(s: Seq<(Seq<char>, EntryView)>, i: int)
    requires
        distinct_keys(s),
        0 <= i < s.len(),
    ensures
        lookup(s, s[i].0) == Some(s[i].1),
    decreases s.len(),
{
    if i != s.len() - 1 {
        let t = s.drop_last();
        assert(distinct_keys(t));
        lemma_lookup_distinct(t, i);
        assert(t[i] == s[i]);
    }
}

/// Merging the stored values again delivers nothing: every value is unchanged.
pub proof fn law_merge_same_values_yields_no_fragments(values: Seq<(Seq<char>, EntryView)>)
    requires
        keys_ascending(values),
    ensures
        merge_fragments(values, values).len() == 0,
{
    lemma_ascending_keys_are_distinct(values);
    lemma_no_fragments_prefix(values, values.len() as int);
    assert(values.subrange(0, values.len() as int) =~= values);
}

proof fn lemma_no_fragments_prefix(values: Seq<(Seq<char>, EntryView)>, n: int)
    requires
        distinct_keys(values),
        0 <= n <= values.len(),
    ensures
        merge_fragments(values, values.subrange(0, n)).len() == 0,
    decreases n,
{
    if n > 0 {
        lemma_no_fragments_prefix(values, n - 1);
        assert(values.subrange(0, n).drop_last() =~= values.subrange(0, n - 1));
        lemma_lookup_distinct(values, n - 1);
    }
}

/// Merging into an empty store delivers every value, each as a fragment of its kind.
pub proof fn law_merge_into_empty_delivers_all(values: Seq<(Seq<char>, EntryView)>)
    ensures
        merge_fragments(Seq::empty(), values).len() == values.len(),
        forall|i: int| 0 <= i < values.len() ==> #[trigger] merge_fragments(Seq::empty(), values)[i]
            == fragment_for(values[i].0, values[i].1),
    decreases values.len(),
{
    if values.len() > 0 {
        law_merge_into_empty_delivers_all(values.drop_last());
    }
}

/// A value is delivered exactly when the store does not hold that very entry under its
/// key: a changed value, a changed kind or a new key each yield one fragment, carrying
/// the key and the new value, as user content for untrusted values and as developer
/// content for application values; an unchanged entry yields none.
pub proof fn law_merge_delivers_value_unless_stored_unchanged(
    stored: Seq<(Seq<char>, EntryView)>,
    key: Seq<char>,
    kind: AdditionalContextKind,
    value: Seq<char>,
)
    ensures
        lookup(stored, key) == Some((kind, value)) ==> merge_fragments(stored, seq![(key, (kind, value))]).len() == 0,
        lookup(stored, key) != Some((kind, value)) ==> merge_fragments(stored, seq![(key, (kind, value))]) == seq![
            match kind {
                AdditionalContextKind::Untrusted => FragmentView::User { key, value },
                AdditionalContextKind::Application => FragmentView::Developer { key, value },
            },
        ],
{
    let vs = seq![(key, (kind, value))];
    assert(vs.drop_last() =~= Seq::<(Seq<char>, EntryView)>::empty());
    assert(merge_fragments(stored, vs.drop_last()) =~= Seq::<FragmentView>::empty());
}

/// Appending one value to a merge appends at most its own fragment: the fragments
/// for the earlier values are unchanged, and the new value adds one fragment exactly
/// when the store does not hold it unchanged.
pub proof fn law_merge_is_per_value(
    stored: Seq<(Seq<char>, EntryView)>,
    values: Seq<(Seq<char>, EntryView)>,
    key: Seq<char>,
    entry: EntryView,
)
    ensures
        merge_fragments(stored, values.push((key, entry))).subrange(0, merge_fragments(stored, values).len() as int)
            == merge_fragments(stored, values),
        merge_fragments(stored, values.push((key, entry))).len() == merge_fragments(stored, values).len()
            + if lookup(stored, key) == Some(entry) { 0int } else { 1int },
{
    assert(values.push((key, entry)).drop_last() =~= values);
    let base = merge_fragments(stored, values);
    assert(base.push(fragment_for(key, entry)).subrange(0, base.len() as int) =~= base);
    assert(base.subrange(0, base.len() as int) =~= base);
}

/// A stored entry is found again under its key only with the same kind and value: the
/// lookup that decides delivery compares whole entries.
pub proof fn law_lookup_returns_whole_entry(s: Seq<(Seq<char>, EntryView)>, i: int)
    requires
        distinct_keys(s),
        0 <= i < s.len(),
    ensures
        lookup(s, s[i].0) == Some(s[i].1),
        forall|e: EntryView| e != s[i].1 ==> lookup(s, s[i].0) != Some(e),
{
    lemma_lookup_distinct(s, i);
}

} // verus!
