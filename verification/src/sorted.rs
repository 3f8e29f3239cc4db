//! Maps keyed by strings and kept in ascending key order, as a string's
//! `Ord` orders them: lexicographically by UTF-8 bytes. Indices into such a
//! map are stable, so an index names the same entry across calls.

use vstd::prelude::*;
use vstd::utf8::encode_utf8;

verus! {

broadcast use vstd::utf8::group_utf8_lib;

/// Lexicographic order on byte sequences; a proper prefix comes first.
pub open spec fn bytes_lt(a: Seq<u8>, b: Seq<u8>) -> bool
    decreases a.len(),
{
    if b.len() == 0 {
        false
    } else if a.len() == 0 {
        true
    } else if a[0] != b[0] {
        a[0] < b[0]
    } else {
        bytes_lt(a.drop_first(), b.drop_first())
    }
}

/// The order of string keys: by their UTF-8 bytes.
pub open spec fn key_lt(a: Seq<char>, b: Seq<char>) -> bool {
    bytes_lt(encode_utf8(a), encode_utf8(b))
}

pub proof fn lemma_bytes_lt_irreflexive(a: Seq<u8>)
    ensures
        !bytes_lt(a, a),
    decreases a.len(),
{
    if a.len() > 0 {
        lemma_bytes_lt_irreflexive(a.drop_first());
    }
}

pub proof fn lemma_bytes_lt_transitive(a: Seq<u8>, b: Seq<u8>, c: Seq<u8>)
    requires
        bytes_lt(a, b),
        bytes_lt(b, c),
    ensures
        bytes_lt(a, c),
    decreases a.len(),
{
    if a.len() > 0 && a[0] == b[0] && b[0] == c[0] {
        lemma_bytes_lt_transitive(a.drop_first(), b.drop_first(), c.drop_first());
    }
}

pub proof fn lemma_bytes_lt_total(a: Seq<u8>, b: Seq<u8>)
    ensures
        a == b || bytes_lt(a, b) || bytes_lt(b, a),
    decreases a.len(),
{
    if a.len() == 0 && b.len() == 0 {
        assert(a =~= b);
    } else if a.len() > 0 && b.len() > 0 && a[0] == b[0] {
        lemma_bytes_lt_total(a.drop_first(), b.drop_first());
        if a.drop_first() == b.drop_first() {
            assert forall|i: int| 0 <= i < a.len() implies a[i] == b[i] by {
                if i > 0 {
                    assert(a[i] == a.drop_first()[i - 1]);
                    assert(b[i] == b.drop_first()[i - 1]);
                }
            }
            assert(a =~= b);
        }
    }
}

pub proof fn lemma_bytes_lt_asymmetric(a: Seq<u8>, b: Seq<u8>)
    requires
        bytes_lt(a, b),
    ensures
        !bytes_lt(b, a),
{
    if bytes_lt(b, a) {
        lemma_bytes_lt_transitive(a, b, a);
        lemma_bytes_lt_irreflexive(a);
    }
}

/// Skipping a common prefix does not change the order.
proof fn lemma_bytes_lt_skip(a: Seq<u8>, b: Seq<u8>, i: int)
    requires
        0 <= i <= a.len(),
        i <= b.len(),
        forall|j: int| 0 <= j < i ==> a[j] == b[j],
    ensures
        bytes_lt(a, b) == bytes_lt(a.skip(i), b.skip(i)),
    decreases i,
{
    if i == 0 {
        assert(a.skip(0) =~= a);
        assert(b.skip(0) =~= b);
    } else {
        assert(a[0] == b[0]);
        lemma_bytes_lt_skip(a.drop_first(), b.drop_first(), i - 1);
        assert(a.drop_first().skip(i - 1) =~= a.skip(i));
        assert(b.drop_first().skip(i - 1) =~= b.skip(i));
    }
}

pub proof fn lemma_key_order(a: Seq<char>, b: Seq<char>)
    ensures
        a == b || key_lt(a, b) || key_lt(b, a),
        !key_lt(a, a),
        key_lt(a, b) ==> !key_lt(b, a),
        key_lt(a, b) ==> a != b,
{
    lemma_bytes_lt_total(encode_utf8(a), encode_utf8(b));
    lemma_bytes_lt_irreflexive(encode_utf8(a));
    if key_lt(a, b) {
        lemma_bytes_lt_asymmetric(encode_utf8(a), encode_utf8(b));
    }
    if encode_utf8(a) == encode_utf8(b) {
        assert(decode_utf8_of(a) == decode_utf8_of(b));
    }
}

spec fn decode_utf8_of(a: Seq<char>) -> Seq<char> {
    vstd::utf8::decode_utf8(encode_utf8(a))
}

pub proof fn lemma_key_lt_transitive(a: Seq<char>, b: Seq<char>, c: Seq<char>)
    requires
        key_lt(a, b),
        key_lt(b, c),
    ensures
        key_lt(a, c),
{
    lemma_bytes_lt_transitive(encode_utf8(a), encode_utf8(b), encode_utf8(c));
}

/// Compares two byte strings: -1, 0 or 1 as `a` sorts before, equal to, or
/// after `b`.
pub fn bytes_order(a: &[u8], b: &[u8]) -> (r: i8)
    ensures
        r == -1 || r == 0 || r == 1,
        r == -1 <==> bytes_lt(a@, b@),
        r == 0 <==> a@ == b@,
        r == 1 <==> bytes_lt(b@, a@),
{
    let n = if a.len() < b.len() { a.len() } else { b.len() };
    let mut i: usize = 0;
    while i < n
        invariant
            i <= n,
            n <= a@.len(),
            n <= b@.len(),
            n == a@.len() || n == b@.len(),
            forall|j: int| 0 <= j < i ==> a@[j] == b@[j],
        decreases n - i,
    {
        if a[i] != b[i] {
            proof {
                lemma_bytes_lt_skip(a@, b@, i as int);
                lemma_bytes_lt_skip(b@, a@, i as int);
                assert(a@.skip(i as int)[0] == a@[i as int]);
                assert(b@.skip(i as int)[0] == b@[i as int]);
            }
            if a[i] < b[i] {
                return -1;
            } else {
                return 1;
            }
        }
        i = i + 1;
    }
    proof {
        lemma_bytes_lt_skip(a@, b@, n as int);
        lemma_bytes_lt_skip(b@, a@, n as int);
        lemma_bytes_lt_irreflexive(a@);
    }
    if a.len() < b.len() {
        proof {
            assert(a@.skip(n as int).len() == 0);
        }
        -1
    } else if a.len() == b.len() {
        proof {
            assert(a@ =~= b@);
        }
        0
    } else {
        proof {
            assert(b@.skip(n as int).len() == 0);
        }
        1
    }
}

/// Whether keys ascend strictly, so no key occurs twice.
pub open spec fn keys_sorted<V>(s: Seq<(Seq<char>, V)>) -> bool {
    forall|i: int, j: int| 0 <= i < j < s.len() ==> key_lt(#[trigger] s[i].0, #[trigger] s[j].0)
}

/// Whether `k` is a key of `s`.
pub open spec fn has_key<V>(s: Seq<(Seq<char>, V)>, k: Seq<char>) -> bool {
    exists|i: int| 0 <= i < s.len() && #[trigger] s[i].0 == k
}

/// The index of key `k` in `s`.
pub open spec fn key_index<V>(s: Seq<(Seq<char>, V)>, k: Seq<char>) -> Option<int> {
    if has_key(s, k) {
        Some(choose|i: int| 0 <= i < s.len() && #[trigger] s[i].0 == k)
    } else {
        None
    }
}

/// The value under key `k` in `s`.
pub open spec fn lookup<V>(s: Seq<(Seq<char>, V)>, k: Seq<char>) -> Option<V> {
    match key_index(s, k) {
        Some(i) => Some(s[i].1),
        None => None,
    }
}

/// The value of the last pair with key `k`.
pub open spec fn last_value<V>(s: Seq<(Seq<char>, V)>, k: Seq<char>) -> Option<V>
    decreases s.len(),
{
    if s.len() == 0 {
        None
    } else if s.last().0 == k {
        Some(s.last().1)
    } else {
        last_value(s.drop_last(), k)
    }
}

/// In a sorted sequence a key's index is the only index that holds it.
pub proof fn lemma_key_index_unique<V>(s: Seq<(Seq<char>, V)>, k: Seq<char>, idx: int)
    requires
        keys_sorted(s),
        0 <= idx < s.len(),
        s[idx].0 == k,
    ensures
        key_index(s, k) == Some(idx),
        lookup(s, k) == Some(s[idx].1),
{
    assert(has_key(s, k));
    let i = choose|i: int| 0 <= i < s.len() && #[trigger] s[i].0 == k;
    lemma_key_order(k, k);
    if i < idx {
        assert(key_lt(s[i].0, s[idx].0));
    } else if i > idx {
        assert(key_lt(s[idx].0, s[i].0));
    }
}

/// Setting key `k` to `v` in a sorted sequence, as [`SortedMap::insert`]
/// does: the entry with key `k` is replaced, or a new entry is added.
pub open spec fn inserted<V>(old_s: Seq<(Seq<char>, V)>, new_s: Seq<(Seq<char>, V)>, k: Seq<char>, v: V) -> bool {
    &&& keys_sorted(new_s)
    &&& match key_index(old_s, k) {
        Some(i) => new_s == old_s.update(i, (k, v)),
        None => exists|p: int| 0 <= p <= old_s.len() && new_s == old_s.insert(p, (k, v)),
    }
}

/// Law: after setting `k` to `v`, reading `k` gives `v`, every other key
/// reads as before, and the map grows by one entry exactly when `k` was new.
pub proof fn lemma_inserted_lookup<V>(
    old_s: Seq<(Seq<char>, V)>,
    new_s: Seq<(Seq<char>, V)>,
    k: Seq<char>,
    v: V,
    other: Seq<char>,
)
    requires
        keys_sorted(old_s),
        inserted(old_s, new_s, k, v),
    ensures
        lookup(new_s, k) == Some(v),
        other != k ==> lookup(new_s, other) == lookup(old_s, other),
        new_s.len() == old_s.len() + (if has_key(old_s, k) { 0int } else { 1int }),
{
    match key_index(old_s, k) {
        Some(i) => {
            lemma_key_index_unique(old_s, k, i);
            lemma_key_index_unique(new_s, k, i);
            if other != k {
                if has_key(old_s, other) {
                    let j = choose|j: int| 0 <= j < old_s.len() && #[trigger] old_s[j].0 == other;
                    lemma_key_index_unique(old_s, other, j);
                    lemma_key_index_unique(new_s, other, j);
                } else {
                    if has_key(new_s, other) {
                        let j = choose|j: int| 0 <= j < new_s.len() && #[trigger] new_s[j].0 == other;
                        assert(old_s[j].0 == other);
                    }
                }
            }
        },
        None => {
            let p = choose|p: int| 0 <= p <= old_s.len() && new_s == old_s.insert(p, (k, v));
            assert(new_s[p].0 == k);
            lemma_key_index_unique(new_s, k, p);
            if other != k {
                if has_key(old_s, other) {
                    let j = choose|j: int| 0 <= j < old_s.len() && #[trigger] old_s[j].0 == other;
                    lemma_key_index_unique(old_s, other, j);
                    let jn = if j < p { j } else { j + 1 };
                    assert(new_s[jn] == old_s[j]);
                    lemma_key_index_unique(new_s, other, jn);
                } else {
                    if has_key(new_s, other) {
                        let j = choose|j: int| 0 <= j < new_s.len() && #[trigger] new_s[j].0 == other;
                        if j < p {
                            assert(old_s[j].0 == other);
                        } else if j > p {
                            assert(old_s[j - 1].0 == other);
                        }
                    }
                }
            }
        },
    }
}

/// A map from string keys to values, kept in ascending key order with each
/// key at most once.
#[derive(Debug)]
pub struct SortedMap<V: View> {
    entries: Vec<(String, V)>,
}

/// An entry as the spec sees it: the key's text and the value's view.
pub open spec fn entry_view<V: View>(e: (String, V)) -> (Seq<char>, V::V) {
    (e.0@, e.1@)
}

impl<V: View> View for SortedMap<V> {
    type V = Seq<(Seq<char>, V::V)>;

    closed spec fn view(&self) -> Seq<(Seq<char>, V::V)> {
        entries_view(self.entries@)
    }
}

impl<V: View> SortedMap<V> {
    #[verifier::type_invariant]
    spec fn well_formed(self) -> bool {
        keys_sorted(self@)
    }

    /// An empty map.
    pub fn new() -> (r: Self)
        ensures
            r@ == Seq::<(Seq<char>, V::V)>::empty(),
    {
        let r = SortedMap { entries: Vec::new() };
        assert(r@ =~= Seq::<(Seq<char>, V::V)>::empty());
        r
    }

    /// The number of entries.
    pub fn len(&self) -> (r: usize)
        ensures
            r == self@.len(),
            keys_sorted(self@),
    {
        proof { use_type_invariant(self); }
        self.entries.len()
    }

    /// The key of the entry at `index`, in ascending key order.
    pub fn key_at(&self, index: usize) -> (r: &str)
        requires
            index < self@.len(),
        ensures
            r@ == self@[index as int].0,
    {
        assert(self@[index as int] == entry_view(self.entries@[index as int]));
        self.entries[index].0.as_str()
    }

    /// The value of the entry at `index`, in ascending key order.
    pub fn value_at(&self, index: usize) -> (r: &V)
        requires
            index < self@.len(),
        ensures
            r@ == self@[index as int].1,
    {
        assert(self@[index as int] == entry_view(self.entries@[index as int]));
        &self.entries[index].1
    }

    /// The index of `key`, if present.
    pub fn find(&self, key: &str) -> (r: Option<usize>)
        ensures
            keys_sorted(self@),
            match r {
                Some(i) => i < self@.len() && self@[i as int].0 == key@ && key_index(self@, key@) == Some(i as int),
                None => !has_key(self@, key@),
            },
    {
        proof { use_type_invariant(self); }
        let kb = key.as_bytes();
        let mut i: usize = 0;
        while i < self.entries.len()
            invariant
                i <= self@.len(),
                self.entries@.len() == self@.len(),
                keys_sorted(self@),
                kb@ == encode_utf8(key@),
                forall|j: int| 0 <= j < i ==> self@[j].0 != key@,
            decreases self@.len() - i,
        {
            let eb = self.entries[i].0.as_str().as_bytes();
            proof {
                assert(self@[i as int] == entry_view(self.entries@[i as int]));
            }
            if bytes_order(eb, kb) == 0 {
                proof {
                    assert(decode_utf8_of(self@[i as int].0) == decode_utf8_of(key@));
                    lemma_key_index_unique(self@, key@, i as int);
                }
                return Some(i);
            }
            proof {
                if self@[i as int].0 == key@ {
                    assert(encode_utf8(self@[i as int].0) == encode_utf8(key@));
                }
            }
            i = i + 1;
        }
        None
    }

    /// Sets `key` to `value`: replaces the value of an existing key, or adds
    /// a new entry at the position that keeps keys ascending.
    pub fn insert(&mut self, key: String, value: V)
        ensures
            keys_sorted(old(self)@),
            inserted(old(self)@, final(self)@, key@, value@),
    {
        proof { use_type_invariant(&*self); }
        let ghost old_view = self@;
        let kb = key.as_str().as_bytes();
        let mut i: usize = 0;
        while i < self.entries.len() && bytes_order(self.entries[i].0.as_str().as_bytes(), kb) < 0
            invariant
                i <= self@.len(),
                self.entries@.len() == self@.len(),
                self@ == old_view,
                keys_sorted(self@),
                kb@ == encode_utf8(key@),
                forall|j: int| 0 <= j < self@.len() ==> #[trigger] self@[j] == entry_view(self.entries@[j]),
                forall|j: int| 0 <= j < i ==> key_lt(#[trigger] self@[j].0, key@),
            decreases self@.len() - i,
        {
            i = i + 1;
        }
        let found = i < self.entries.len() && bytes_order(self.entries[i].0.as_str().as_bytes(), kb) == 0;
        proof {
            if found {
                assert(decode_utf8_of(self@[i as int].0) == decode_utf8_of(key@));
            }
            if !found && i < self@.len() {
                lemma_key_order(self@[i as int].0, key@);
            }
        }
        let ghost key_view = key@;
        let ghost value_view = value@;
        if found {
            proof {
                lemma_key_index_unique(old_view, key_view, i as int);
            }
            let mut entries = Vec::new();
            std::mem::swap(&mut entries, &mut self.entries);
            entries.set(i, (key, value));
            proof {
                assert(entries_view(entries@) =~= old_view.update(
                    i as int,
                    (key_view, value_view),
                ));
            }
            self.entries = entries;
        } else {
            proof {
                // every entry from `i` on sorts after the new key
                assert forall|j: int| i <= j < old_view.len() implies key_lt(key_view, #[trigger] old_view[j].0) by {
                    if j > i {
                        lemma_key_lt_transitive(key_view, old_view[i as int].0, old_view[j].0);
                    }
                }
                if has_key(old_view, key_view) {
                    let j = choose|j: int| 0 <= j < old_view.len() && #[trigger] old_view[j].0 == key_view;
                    lemma_key_order(key_view, key_view);
                }
            }
            let mut entries = Vec::new();
            std::mem::swap(&mut entries, &mut self.entries);
            entries.insert(i, (key, value));
            proof {
                let nv = entries_view(entries@);
                assert(nv =~= old_view.insert(i as int, (key_view, value_view)));
                assert forall|a: int, b: int| 0 <= a < b < nv.len() implies key_lt(#[trigger] nv[a].0, #[trigger] nv[b].0) by {
                    if b < i {
                    } else if a < i && b == i {
                    } else if a < i {
                        lemma_key_lt_transitive(nv[a].0, key_view, nv[b].0);
                    } else if a == i {
                    } else {
                        assert(nv[a] == old_view[a - 1]);
                        assert(nv[b] == old_view[b - 1]);
                    }
                }
            }
            self.entries = entries;
        }
    }

    /// Builds a map from pairs; where a key occurs more than once, its last
    /// value wins.
    pub fn from_pairs(pairs: Vec<(String, V)>) -> (r: Self)
        ensures
            keys_sorted(r@),
            forall|k: Seq<char>| #[trigger] lookup(r@, k) == last_value(entries_view(pairs@), k),
    {
        let ghost pv = entries_view(pairs@);
        let mut map = SortedMap::new();
        let mut rest = pairs;
        while rest.len() > 0
            invariant
                rest@.len() <= pv.len(),
                entries_view(rest@) == pv.take(rest@.len() as int),
                keys_sorted(map@),
                forall|k: Seq<char>| #[trigger] lookup(map@, k) == last_value(pv.skip(rest@.len() as int), k),
            decreases rest@.len(),
        {
            proof { use_type_invariant(&map); }
            let ghost m = rest@.len() as int;
            let ghost old_rest = rest@;
            let pair = rest.pop().unwrap();
            proof {
                assert(entries_view(old_rest)[m - 1] == entry_view(old_rest[m - 1]));
                assert(pv.take(m)[m - 1] == pv[m - 1]);
                assert(entry_view(pair) == pv[m - 1]);
                assert(entries_view(rest@) =~= pv.take(m - 1));
            }
            let ghost before = map@;
            match map.find(pair.0.as_str()) {
                Some(_) => {
                    proof {
                        assert forall|k: Seq<char>| #[trigger] lookup(map@, k) == last_value(pv.skip(m - 1), k) by {
                            lemma_last_value_prepend(pv.skip(m - 1), k);
                            assert(pv.skip(m - 1).drop_first() =~= pv.skip(m));
                            if k == pair.0@ {
                                let i = choose|i: int| 0 <= i < map@.len() && #[trigger] map@[i].0 == k;
                                lemma_key_index_unique(map@, k, i);
                            }
                        }
                    }
                },
                None => {
                    let ghost kv = pair.0@;
                    let ghost vv = pair.1@;
                    map.insert(pair.0, pair.1);
                    proof {
                        assert forall|k: Seq<char>| #[trigger] lookup(map@, k) == last_value(pv.skip(m - 1), k) by {
                            lemma_last_value_prepend(pv.skip(m - 1), k);
                            assert(pv.skip(m - 1).drop_first() =~= pv.skip(m));
                            lemma_inserted_lookup(before, map@, kv, vv, k);
                            if k == kv {
                                assert(lookup(before, k) is None);
                            }
                        }
                    }
                },
            }
        }
        proof {
            assert(pv.skip(0) =~= pv);
        }
        map
    }
}

/// The spec view of a sequence of owned entries.
pub open spec fn entries_view<V: View>(v: Seq<(String, V)>) -> Seq<(Seq<char>, V::V)> {
    v.map_values(|e: (String, V)| entry_view(e))
}

/// The texts of a sequence of strings.
pub open spec fn strings_view(v: Seq<String>) -> Seq<Seq<char>> {
    v.map_values(|s: String| s@)
}

/// The keys of a sequence of entries, in order.
pub open spec fn keys_of<V>(s: Seq<(Seq<char>, V)>) -> Seq<Seq<char>> {
    s.map_values(|e: (Seq<char>, V)| e.0)
}

impl SortedMap<String> {
    /// The entries as owned key/value pairs, in ascending key order.
    pub fn pairs(&self) -> (r: Vec<(String, String)>)
        ensures
            entries_view(r@) == self@,
    {
        let mut out: Vec<(String, String)> = Vec::new();
        let mut i: usize = 0;
        while i < self.entries.len()
            invariant
                i <= self.entries@.len(),
                self@ == entries_view(self.entries@),
                out@.len() == i,
                forall|j: int| 0 <= j < i ==> #[trigger] entry_view(out@[j]) == self@[j],
            decreases self.entries@.len() - i,
        {
            let k = self.entries[i].0.clone();
            let v = self.entries[i].1.clone();
            proof {
                assert(self@[i as int] == entry_view(self.entries@[i as int]));
            }
            out.push((k, v));
            i = i + 1;
        }
        proof {
            assert(entries_view(out@) =~= self@);
        }
        out
    }
}

impl<V: View> SortedMap<V> {
    /// The keys, in ascending order.
    pub fn keys(&self) -> (r: Vec<String>)
        ensures
            strings_view(r@) == keys_of(self@),
    {
        let mut out: Vec<String> = Vec::new();
        let mut i: usize = 0;
        while i < self.entries.len()
            invariant
                i <= self.entries@.len(),
                self@ == entries_view(self.entries@),
                out@.len() == i,
                forall|j: int| 0 <= j < i ==> #[trigger] out@[j]@ == self@[j].0,
            decreases self.entries@.len() - i,
        {
            let k = self.entries[i].0.clone();
            proof {
                assert(self@[i as int] == entry_view(self.entries@[i as int]));
            }
            out.push(k);
            i = i + 1;
        }
        proof {
            assert(strings_view(out@) =~= keys_of(self@));
        }
        out
    }
}

/// In a sorted sequence no key occurs twice.
pub proof fn lemma_sorted_keys_distinct<V>(s: Seq<(Seq<char>, V)>)
    requires
        keys_sorted(s),
    ensures
        keys_of(s).no_duplicates(),
{
    assert forall|i: int, j: int| 0 <= i < keys_of(s).len() && 0 <= j < keys_of(s).len() && i != j implies keys_of(s)[i]
        != keys_of(s)[j] by {
        if i < j {
            assert(key_lt(s[i].0, s[j].0));
        } else {
            assert(key_lt(s[j].0, s[i].0));
        }
        lemma_key_order(s[i].0, s[j].0);
    }
}

/// Law: setting a key adds exactly that key to the key set, and the keys
/// stay sorted and distinct.
pub proof fn lemma_inserted_keys<V>(old_s: Seq<(Seq<char>, V)>, new_s: Seq<(Seq<char>, V)>, k: Seq<char>, v: V)
    requires
        keys_sorted(old_s),
        inserted(old_s, new_s, k, v),
    ensures
        keys_of(new_s).to_set() == keys_of(old_s).to_set().insert(k),
        keys_of(new_s).no_duplicates(),
{
    lemma_sorted_keys_distinct(new_s);
    match key_index(old_s, k) {
        Some(i) => {
            lemma_key_index_unique(old_s, k, i);
            assert(keys_of(new_s) =~= keys_of(old_s));
            assert(keys_of(old_s)[i] == k);
            assert(keys_of(new_s).to_set() =~= keys_of(old_s).to_set().insert(k));
        },
        None => {
            let p = choose|p: int| 0 <= p <= old_s.len() && new_s == old_s.insert(p, (k, v));
            assert(keys_of(new_s) =~= keys_of(old_s).insert(p, k));
            assert forall|x: Seq<char>| keys_of(new_s).to_set().contains(x) == keys_of(old_s).to_set().insert(k).contains(x) by {
                if keys_of(new_s).contains(x) {
                    let j = choose|j: int| 0 <= j < keys_of(new_s).len() && keys_of(new_s)[j] == x;
                    if j < p {
                        assert(keys_of(old_s)[j] == x);
                    } else if j > p {
                        assert(keys_of(old_s)[j - 1] == x);
                    }
                }
                if keys_of(old_s).contains(x) {
                    let j = choose|j: int| 0 <= j < keys_of(old_s).len() && keys_of(old_s)[j] == x;
                    if j < p {
                        assert(keys_of(new_s)[j] == x);
                    } else {
                        assert(keys_of(new_s)[j + 1] == x);
                    }
                }
                if x == k {
                    assert(keys_of(new_s)[p] == x);
                }
            }
            assert(keys_of(new_s).to_set() =~= keys_of(old_s).to_set().insert(k));
        },
    }
}

/// Reading the last value of a key after a leading pair.
proof fn lemma_last_value_prepend<V>(s: Seq<(Seq<char>, V)>, k: Seq<char>)
    requires
        s.len() > 0,
    ensures
        last_value(s, k) == match last_value(s.drop_first(), k) {
            Some(v) => Some(v),
            None => if s[0].0 == k {
                Some(s[0].1)
            } else {
                None
            },
        },
    decreases s.len(),
{
    if s.len() == 1 {
        assert(s.last() == s[0]);
        assert(s.drop_first().len() == 0);
        assert(s.drop_last().len() == 0);
    } else {
        let t = s.drop_first();
        assert(t.last() == s.last());
        if s.last().0 != k {
            lemma_last_value_prepend(s.drop_last(), k);
            assert(s.drop_last().drop_first() =~= t.drop_last());
            assert(s.drop_last()[0] == s[0]);
        }
    }
}

} // verus!
