//! Maps keyed by provider name that keep their entries in insertion order.
//!
//! A `NameMap` is modelled by the sequence of its `(name, value)` pairs. No
//! name occurs twice, and inserting under a name that is present replaces the
//! value in place, so iteration order is the order of first insertion.

use vstd::prelude::*;
use vstd::string::*;

verus! {

/// The index of the first element of `s` that satisfies `p`, or `s.len()` if none does.
pub open spec fn first_where<T>(s: Seq<T>, p: spec_fn(T) -> bool) -> int
    decreases s.len(),
{
    if s.len() == 0 {
        0
    } else if p(s[0]) {
        0
    } else {
        1 + first_where(s.drop_first(), p)
    }
}

/// `first_where` points at the first element that satisfies the predicate.
pub proof fn lemma_first_where<T>(s: Seq<T>, p: spec_fn(T) -> bool)
    ensures
        0 <= first_where(s, p) <= s.len(),
        forall|j: int| 0 <= j < first_where(s, p) ==> !p(#[trigger] s[j]),
        first_where(s, p) < s.len() ==> p(s[first_where(s, p)]),
    decreases s.len(),
{
    if s.len() > 0 && !p(s[0]) {
        let t = s.drop_first();
        lemma_first_where(t, p);
        assert forall|j: int| 0 <= j < first_where(s, p) implies !p(#[trigger] s[j]) by {
            if j > 0 {
                assert(s[j] == t[j - 1]);
            }
        }
    }
}

/// An index that satisfies the predicate, with no earlier such index, is the first.
pub proof fn lemma_first_where_is<T>(s: Seq<T>, p: spec_fn(T) -> bool, i: int)
    requires
        0 <= i <= s.len(),
        forall|j: int| 0 <= j < i ==> !p(#[trigger] s[j]),
        i < s.len() ==> p(s[i]),
    ensures
        first_where(s, p) == i,
{
    lemma_first_where(s, p);
    let k = first_where(s, p);
    if k < i {
        assert(!p(s[k]));
    } else if k > i {
        assert(!p(s[i]));
    }
}

/// The index of the first pair of `s` named `name`, or `s.len()` if there is none.
pub open spec fn position<V>(s: Seq<(Seq<char>, V)>, name: Seq<char>) -> int
    decreases s.len(),
{
    if s.len() == 0 {
        0
    } else if s[0].0 == name {
        0
    } else {
        1 + position(s.drop_first(), name)
    }
}

/// Whether some pair of `s` is named `name`.
pub open spec fn has_name<V>(s: Seq<(Seq<char>, V)>, name: Seq<char>) -> bool {
    position(s, name) < s.len()
}

/// The value stored under `name`, if any.
pub open spec fn value_of<V>(s: Seq<(Seq<char>, V)>, name: Seq<char>) -> Option<V> {
    if has_name(s, name) {
        Some(s[position(s, name)].1)
    } else {
        None
    }
}

/// The amount stored under `name`, or `default` if there is none.
pub open spec fn amount_or(s: Seq<(Seq<char>, i64)>, name: Seq<char>, default: int) -> int {
    match value_of(s, name) {
        Some(v) => v as int,
        None => default,
    }
}

/// No name occurs twice in `s`.
pub open spec fn distinct_names<V>(s: Seq<(Seq<char>, V)>) -> bool {
    forall|i: int, j: int| 0 <= i < j < s.len() ==> s[i].0 != s[j].0
}

/// `s` with `value` stored under `name`: in place if the name is present, at the end otherwise.
pub open spec fn put<V>(s: Seq<(Seq<char>, V)>, name: Seq<char>, value: V) -> Seq<(Seq<char>, V)> {
    if has_name(s, name) {
        s.update(position(s, name), (name, value))
    } else {
        s.push((name, value))
    }
}

/// The sum of all amounts in `s`.
pub open spec fn total(s: Seq<(Seq<char>, i64)>) -> int
    decreases s.len(),
{
    if s.len() == 0 {
        0
    } else {
        total(s.drop_last()) + s.last().1
    }
}

/// `position` points at the first pair with the name and nowhere else.
pub proof fn lemma_position<V>(s: Seq<(Seq<char>, V)>, name: Seq<char>)
    ensures
        0 <= position(s, name) <= s.len(),
        forall|j: int| 0 <= j < position(s, name) ==> (#[trigger] s[j]).0 != name,
        position(s, name) < s.len() ==> s[position(s, name)].0 == name,
    decreases s.len(),
{
    if s.len() > 0 && s[0].0 != name {
        let t = s.drop_first();
        lemma_position(t, name);
        assert forall|j: int| 0 <= j < position(s, name) implies (#[trigger] s[j]).0 != name by {
            if j > 0 {
                assert(s[j] == t[j - 1]);
            }
        }
    }
}

/// An index whose pair carries the name, with no earlier such pair, is the position.
pub proof fn lemma_position_is<V>(s: Seq<(Seq<char>, V)>, name: Seq<char>, i: int)
    requires
        0 <= i <= s.len(),
        forall|j: int| 0 <= j < i ==> (#[trigger] s[j]).0 != name,
        i < s.len() ==> s[i].0 == name,
    ensures
        position(s, name) == i,
{
    lemma_position(s, name);
    let p = position(s, name);
    if p < i {
        assert(s[p].0 != name);
    } else if p > i {
        assert(s[i].0 != name);
    }
}

/// Storing a value keeps the names distinct.
pub proof fn lemma_put_distinct<V>(s: Seq<(Seq<char>, V)>, name: Seq<char>, value: V)
    requires
        distinct_names(s),
    ensures
        distinct_names(put(s, name, value)),
        value_of(put(s, name, value), name) == Some(value),
        put(s, name, value).len() == if has_name(s, name) { s.len() } else { s.len() + 1 },
{
    lemma_position(s, name);
    let t = put(s, name, value);
    let p = position(s, name);
    assert forall|j: int| 0 <= j < p implies (#[trigger] t[j]).0 != name by {
        assert(s[j].0 != name);
    }
    lemma_position_is(t, name, p);
    assert forall|i: int, j: int| 0 <= i < j < t.len() implies t[i].0 != t[j].0 by {
        if has_name(s, name) {
            assert(t[i].0 == s[i].0 && t[j].0 == s[j].0);
        } else if j == s.len() {
            assert(s[i].0 != name);
        }
    }
}

/// Storing a value under one name leaves what is stored under another.
pub proof fn lemma_put_other<V>(s: Seq<(Seq<char>, V)>, name: Seq<char>, value: V, other: Seq<char>)
    requires
        name != other,
    ensures
        value_of(put(s, name, value), other) == value_of(s, other),
        has_name(put(s, name, value), other) == has_name(s, other),
{
    lemma_position(s, name);
    lemma_position(s, other);
    let t = put(s, name, value);
    let q = position(s, other);
    assert forall|j: int| 0 <= j < q implies (#[trigger] t[j]).0 != other by {
        assert(s[j].0 != other);
    }
    if q < s.len() {
        lemma_position_is(t, other, q);
    } else {
        lemma_position_is(t, other, t.len() as int);
    }
}

/// Storing a value changes the sum by the difference to the amount it replaces.
pub proof fn lemma_put_total(s: Seq<(Seq<char>, i64)>, name: Seq<char>, value: i64)
    ensures
        total(put(s, name, value)) == total(s) - amount_or(s, name, 0) + value,
    decreases s.len(),
{
    lemma_position(s, name);
    let t = put(s, name, value);
    let p = position(s, name);
    if !has_name(s, name) {
        assert(t.drop_last() == s);
    } else if p == s.len() - 1 {
        assert(t.drop_last() == s.drop_last());
    } else {
        let s1 = s.drop_last();
        assert forall|j: int| 0 <= j < p implies (#[trigger] s1[j]).0 != name by {
            assert(s[j].0 != name);
        }
        lemma_position_is(s1, name, p);
        lemma_put_total(s1, name, value);
        assert(t.drop_last() == put(s1, name, value));
    }
}

/// The sum of `n` amounts lies within `n` times the range of one amount.
pub proof fn lemma_total_bound(s: Seq<(Seq<char>, i64)>)
    ensures
        s.len() * i64::MIN <= total(s) <= s.len() * i64::MAX,
    decreases s.len(),
{
    if s.len() > 0 {
        lemma_total_bound(s.drop_last());
        assert((s.len() - 1) * i64::MIN + i64::MIN == s.len() * i64::MIN) by (nonlinear_arith);
        assert((s.len() - 1) * i64::MAX + i64::MAX == s.len() * i64::MAX) by (nonlinear_arith);
    }
}

/// The names held by a list of strings.
pub open spec fn names(list: Seq<String>) -> Seq<Seq<char>> {
    list.map_values(|s: String| s@)
}

/// Whether `name` is in `list`.
pub fn listed(list: &Vec<String>, name: &String) -> (r: bool)
    ensures
        r == names(list@).contains(name@),
{
    let mut i: usize = 0;
    while i < list.len()
        invariant
            i <= list@.len(),
            forall|j: int| 0 <= j < i ==> (#[trigger] names(list@)[j]) != name@,
        decreases list@.len() - i,
    {
        if list[i] == *name {
            assert(names(list@)[i as int] == name@);
            return true;
        }
        i += 1;
    }
    false
}

/// A copy of a list of names.
pub fn copy_names(list: &Vec<String>) -> (r: Vec<String>)
    ensures
        names(r@) == names(list@),
{
    let mut r: Vec<String> = Vec::new();
    let mut i: usize = 0;
    while i < list.len()
        invariant
            i <= list@.len(),
            r@.len() == i,
            forall|j: int| 0 <= j < i ==> (#[trigger] r@[j])@ == list@[j]@,
        decreases list@.len() - i,
    {
        r.push(list[i].clone());
        i += 1;
    }
    assert(names(r@) =~= names(list@));
    r
}

/// An insertion-ordered map from provider names to values.
#[derive(Debug)]
pub struct NameMap<V> {
    entries: Vec<(String, V)>,
}

/// Amounts by provider, in millionths of their unit.
pub type Ledger = NameMap<i64>;

/// Connection flags by provider.
pub type StatusMap = NameMap<bool>;

impl<V> View for NameMap<V> {
    type V = Seq<(Seq<char>, V)>;

    closed spec fn view(&self) -> Seq<(Seq<char>, V)> {
        Seq::new(self.entries@.len(), |i: int| (self.entries@[i].0@, self.entries@[i].1))
    }
}

impl<V> NameMap<V> {
    #[verifier::type_invariant]
    spec fn names_distinct(self) -> bool {
        distinct_names(self@)
    }
}

impl<V: Copy> NameMap<V> {
    /// The empty map.
    pub fn new() -> (r: Self)
        ensures
            r@ == Seq::<(Seq<char>, V)>::empty(),
    {
        let r = NameMap { entries: Vec::new() };
        assert(r@ =~= Seq::<(Seq<char>, V)>::empty());
        r
    }

    /// The number of entries. No two of them share a name.
    pub fn len(&self) -> (n: usize)
        ensures
            n == self@.len(),
            distinct_names(self@),
    {
        proof {
            use_type_invariant(self);
        }
        self.entries.len()
    }

    /// The name of the entry at `index`.
    pub fn name_at(&self, index: usize) -> (r: &String)
        requires
            index < self@.len(),
        ensures
            r@ == self@[index as int].0,
    {
        &self.entries[index].0
    }

    /// The value of the entry at `index`.
    pub fn value_at(&self, index: usize) -> (r: V)
        requires
            index < self@.len(),
        ensures
            r == self@[index as int].1,
    {
        self.entries[index].1
    }

    /// The index of the entry named `name`.
    pub fn find(&self, name: &String) -> (r: Option<usize>)
        ensures
            r is Some <==> has_name(self@, name@),
            r is Some ==> r->0 == position(self@, name@),
    {
        let n = self.entries.len();
        let mut i: usize = 0;
        while i < n
            invariant
                n == self.entries@.len(),
                i <= n,
                forall|j: int| 0 <= j < i ==> (#[trigger] self@[j]).0 != name@,
            decreases n - i,
        {
            if self.entries[i].0 == *name {
                proof {
                    lemma_position_is(self@, name@, i as int);
                }
                return Some(i);
            }
            i += 1;
        }
        proof {
            lemma_position_is(self@, name@, n as int);
        }
        None
    }

    /// The value stored under `name`.
    pub fn get(&self, name: &String) -> (r: Option<V>)
        ensures
            r == value_of(self@, name@),
    {
        match self.find(name) {
            Some(i) => Some(self.entries[i].1),
            None => None,
        }
    }

    /// Whether a value is stored under `name`.
    pub fn contains_key(&self, name: &String) -> (r: bool)
        ensures
            r == has_name(self@, name@),
    {
        self.find(name).is_some()
    }

    /// Stores `value` under `name`, replacing the value already there, if any.
    pub fn insert(&mut self, name: String, value: V)
        ensures
            final(self)@ == put(old(self)@, name@, value),
    {
        proof {
            use_type_invariant(&*self);
            lemma_put_distinct(self@, name@, value);
        }
        let found = self.find(&name);
        let ghost before = self@;
        let mut entries: Vec<(String, V)> = Vec::new();
        std::mem::swap(&mut entries, &mut self.entries);
        match found {
            Some(i) => {
                entries.set(i, (name, value));
            },
            None => {
                entries.push((name, value));
            },
        }
        proof {
            let after = Seq::new(entries@.len(), |i: int| (entries@[i].0@, entries@[i].1));
            assert(after =~= put(before, name@, value));
        }
        self.entries = entries;
    }

    /// Removes every entry.
    pub fn clear(&mut self)
        ensures
            final(self)@ == Seq::<(Seq<char>, V)>::empty(),
    {
        self.entries = Vec::new();
        assert(self@ =~= Seq::<(Seq<char>, V)>::empty());
    }
}

impl<V: Copy> Clone for NameMap<V> {
    fn clone(&self) -> (r: Self)
        ensures
            r@ == self@,
    {
        proof {
            use_type_invariant(self);
        }
        let mut entries: Vec<(String, V)> = Vec::new();
        let n = self.entries.len();
        let mut i: usize = 0;
        while i < n
            invariant
                n == self.entries@.len(),
                i <= n,
                entries@.len() == i,
                forall|j: int| 0 <= j < i ==> (#[trigger] entries@[j]).0@ == self.entries@[j].0@
                    && entries@[j].1 == self.entries@[j].1,
            decreases n - i,
        {
            entries.push((self.entries[i].0.clone(), self.entries[i].1));
            i += 1;
        }
        proof {
            let copy = Seq::new(entries@.len(), |i: int| (entries@[i].0@, entries@[i].1));
            assert(copy =~= self@);
        }
        NameMap { entries }
    }
}

impl NameMap<i64> {
    /// The sum of all amounts.
    pub fn total(&self) -> (r: i128)
        ensures
            r == total(self@),
            -0x7fff_ffff_ffff_ffff_8000_0000_0000_0000 <= r <= 0x7fff_ffff_ffff_ffff_8000_0000_0000_0000,
    {
        let n = self.entries.len();
        let mut sum: i128 = 0;
        let mut i: usize = 0;
        while i < n
            invariant
                n == self.entries@.len(),
                i <= n,
                sum == total(self@.take(i as int)),
            decreases n - i,
        {
            proof {
                lemma_total_bound(self@.take(i as int));
                assert(self@.take(i + 1).drop_last() == self@.take(i as int));
                assert(i * i64::MIN >= usize::MAX * i64::MIN && i * i64::MAX <= usize::MAX * i64::MAX)
                    by (nonlinear_arith)
                    requires
                        0 <= i <= usize::MAX,
                ;
            }
            sum = sum + self.entries[i].1 as i128;
            i += 1;
        }
        proof {
            assert(self@.take(n as int) == self@);
            lemma_total_bound(self@);
            assert(n * i64::MIN >= -0x7fff_ffff_ffff_ffff_8000_0000_0000_0000 && n * i64::MAX
                <= 0x7fff_ffff_ffff_ffff_8000_0000_0000_0000) by (nonlinear_arith)
                requires
                    0 <= n <= 0xffff_ffff_ffff_ffff,
            ;
        }
        sum
    }
}

} // verus!
