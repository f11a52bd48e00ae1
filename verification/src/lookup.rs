//! The lookup table: from the exposed names of the members of a declaration
//! to their positions.
//!
//! A table is built once, from the names of all members in declaration order,
//! and refuses names that occur twice. It keeps its keys sorted, so that a
//! lookup takes a number of comparisons that is logarithmic in the number of
//! names.

use vstd::prelude::*;
use crate::error::{BuildError, DiagnosticView, ErrorKind, Location, Place};
use crate::message;
use crate::text::{chars_of, text_view};

verus! {

broadcast use vstd::string::group_string_axioms;

/// The names of the members of a declaration, as sequences of characters.
pub open spec fn name_views(names: Seq<Option<String>>) -> Seq<Option<Seq<char>>> {
    names.map_values(|n: Option<String>| text_view(n))
}

/// The members at positions `i` and `j` have the same name.
pub open spec fn collides(names: Seq<Option<Seq<char>>>, i: int, j: int) -> bool {
    0 <= i < j < names.len() && names[i] is Some && names[i] == names[j]
}

/// No two members have the same name.
pub open spec fn distinct_names(names: Seq<Option<Seq<char>>>) -> bool {
    forall|i: int, j: int| !collides(names, i, j)
}

/// The members at positions `i` and `j` are the first that have the same
/// name: no member before `j` repeats a name, and `i` is where the name of
/// `j` stood first.
pub open spec fn first_collision(names: Seq<Option<Seq<char>>>, i: int, j: int) -> bool {
    collides(names, i, j) && forall|a: int, b: int|
        collides(names, a, b) ==> j <= b && (b == j ==> i <= a)
}

/// The map from each name to the position of the first member that has it.
pub open spec fn index_map(names: Seq<Option<Seq<char>>>) -> Map<Seq<char>, usize> {
    Map::new(
        |key: Seq<char>| exists|i: int| 0 <= i < names.len() && names[i] == Some(key),
        |key: Seq<char>| first_index(names, key, 0) as usize,
    )
}

/// The first position at or after `from` of a member named `key`, or the
/// number of members where there is none.
pub open spec fn first_index(names: Seq<Option<Seq<char>>>, key: Seq<char>, from: int) -> int
    decreases names.len() - from,
{
    if from < 0 || from >= names.len() {
        names.len() as int
    } else if names[from] == Some(key) {
        from
    } else {
        first_index(names, key, from + 1)
    }
}

/// The error for two members of one name.
pub open spec fn duplicate_name_error(first: int, second: int) -> Seq<DiagnosticView> {
    seq![
        DiagnosticView {
            kind: ErrorKind::DuplicateLookupKey,
            location: Location { member: Some(first as usize), place: Place::Declaration },
            message: message::NAME_ONCE@,
        },
        DiagnosticView {
            kind: ErrorKind::DuplicateLookupKey,
            location: Location { member: Some(second as usize), place: Place::Declaration },
            message: message::DUPLICATE_NAME@,
        },
    ]
}

/// The order of the dictionary on texts: `a` comes before `b` where, at the
/// first position at which they differ, `a` has ended or holds the smaller
/// character.
pub open spec fn precedes(a: Seq<char>, b: Seq<char>) -> bool {
    exists|k: int| precedes_at(a, b, k)
}

/// `a` and `b` agree before position `k`, and there `a` has ended or holds
/// the smaller character.
pub open spec fn precedes_at(a: Seq<char>, b: Seq<char>, k: int) -> bool {
    &&& 0 <= k <= a.len()
    &&& k < b.len()
    &&& forall|i: int| 0 <= i < k ==> a[i] == b[i]
    &&& (k == a.len() || a[k] < b[k])
}

proof fn lemma_precedes_transitive(a: Seq<char>, b: Seq<char>, c: Seq<char>)
    requires
        precedes(a, b),
        precedes(b, c),
    ensures
        precedes(a, c),
{
    let k1 = choose|k: int| precedes_at(a, b, k);
    let k2 = choose|k: int| precedes_at(b, c, k);
    let k = if k1 <= k2 {
        k1
    } else {
        k2
    };
    assert(precedes_at(a, c, k));
}

proof fn lemma_precedes_irreflexive(a: Seq<char>, b: Seq<char>)
    requires
        precedes(a, b),
    ensures
        a != b,
{
    let k = choose|k: int| precedes_at(a, b, k);
    if a == b {
        assert(k < a.len());
    }
}

/// How one text stands to another in the order of the dictionary.
#[derive(Clone, Copy, Debug, PartialEq, Eq, Structural)]
enum Order {
    Before,
    Same,
    After,
}

/// Tells how `a` stands to `b`.
fn order_of(a: &Vec<char>, b: &Vec<char>) -> (r: Order)
    ensures
        match r {
            Order::Before => precedes(a@, b@),
            Order::Same => a@ == b@,
            Order::After => precedes(b@, a@),
        },
{
    let mut i: usize = 0;
    while i < a.len() && i < b.len()
        invariant
            i <= a.len(),
            i <= b.len(),
            forall|j: int| 0 <= j < i ==> a@[j] == b@[j],
        decreases a.len() - i,
    {
        if a[i] < b[i] {
            assert(precedes_at(a@, b@, i as int));
            return Order::Before;
        }
        if a[i] != b[i] {
            assert(precedes_at(b@, a@, i as int));
            return Order::After;
        }
        i += 1;
    }
    if i < b.len() {
        assert(precedes_at(a@, b@, i as int));
        Order::Before
    } else if i < a.len() {
        assert(precedes_at(b@, a@, i as int));
        Order::After
    } else {
        assert(a@ =~= b@);
        Order::Same
    }
}

/// One entry of a table: a name and the position of its member.
#[derive(Debug)]
struct Entry {
    key: Vec<char>,
    index: usize,
}

/// The entries stand in the strict order of their keys.
spec fn sorted(entries: Seq<Entry>) -> bool {
    forall|i: int, j: int| 0 <= i < j < entries.len() ==> precedes(entries[i].key@, entries[j].key@)
}

/// Some entry has the key `key`.
spec fn has_key(entries: Seq<Entry>, key: Seq<char>) -> bool {
    exists|i: int| 0 <= i < entries.len() && entries[i].key@ == key
}

/// The position of an entry with the key `key`.
spec fn entry_of(entries: Seq<Entry>, key: Seq<char>) -> int {
    choose|i: int| 0 <= i < entries.len() && entries[i].key@ == key
}

/// Looks for `key` among sorted entries: the position of its entry, or the
/// position at which an entry for it would have to stand.
fn search(entries: &Vec<Entry>, key: &Vec<char>) -> (r: Result<usize, usize>)
    requires
        sorted(entries@),
    ensures
        match r {
            Ok(at) => at < entries.len() && entries@[at as int].key@ == key@,
            Err(at) => {
                &&& at <= entries.len()
                &&& !has_key(entries@, key@)
                &&& forall|i: int| 0 <= i < at ==> precedes(entries@[i].key@, key@)
                &&& forall|i: int| at <= i < entries.len() ==> precedes(key@, entries@[i].key@)
            },
        },
{
    let mut lo: usize = 0;
    let mut hi: usize = entries.len();
    while lo < hi
        invariant
            lo <= hi <= entries.len(),
            sorted(entries@),
            forall|i: int| 0 <= i < lo ==> precedes(entries@[i].key@, key@),
            forall|i: int| hi <= i < entries.len() ==> precedes(key@, entries@[i].key@),
        decreases hi - lo,
    {
        let mid = lo + (hi - lo) / 2;
        match order_of(&entries[mid].key, key) {
            Order::Same => {
                return Ok(mid);
            },
            Order::Before => {
                assert forall|i: int| 0 <= i < mid + 1 implies precedes(
                    entries@[i].key@,
                    key@,
                ) by {
                    if i < mid {
                        lemma_precedes_transitive(
                            entries@[i].key@,
                            entries@[mid as int].key@,
                            key@,
                        );
                    }
                }
                lo = mid + 1;
            },
            Order::After => {
                assert forall|i: int| mid <= i < entries.len() implies precedes(
                    key@,
                    entries@[i].key@,
                ) by {
                    if i > mid {
                        lemma_precedes_transitive(
                            key@,
                            entries@[mid as int].key@,
                            entries@[i].key@,
                        );
                    }
                }
                hi = mid;
            },
        }
    }
    proof {
        assert forall|i: int| 0 <= i < entries.len() implies entries@[i].key@ != key@ by {
            if i < lo {
                lemma_precedes_irreflexive(entries@[i].key@, key@);
            } else {
                lemma_precedes_irreflexive(key@, entries@[i].key@);
            }
        }
    }
    Err(lo)
}

/// A finished table from names to positions.
#[derive(Debug)]
pub struct LookupTable {
    entries: Vec<Entry>,
}

impl View for LookupTable {
    type V = Map<Seq<char>, usize>;

    closed spec fn view(&self) -> Map<Seq<char>, usize> {
        Map::new(
            |key: Seq<char>| has_key(self.entries@, key),
            |key: Seq<char>| self.entries@[entry_of(self.entries@, key)].index,
        )
    }
}

/// What the first `n` names have put into the entries: every named member
/// has its entry, and every entry is of a named member.
spec fn holds_names(entries: Seq<Entry>, names: Seq<Option<Seq<char>>>, n: int) -> bool {
    &&& forall|i: int|
        0 <= i < n && names[i] is Some ==> exists|e: int|
            0 <= e < entries.len() && entries[e].key@ == names[i]->0 && entries[e].index == i
    &&& forall|e: int|
        0 <= e < entries.len() ==> 0 <= (#[trigger] entries[e]).index < n
            && names[entries[e].index as int] == Some(entries[e].key@)
}

impl LookupTable {
    #[verifier::type_invariant]
    spec fn well_formed(self) -> bool {
        sorted(self.entries@)
    }

    /// Builds the table of the names of the members of a declaration, given
    /// in declaration order; a member without a name has `None`.
    ///
    /// Each name stands for the position of its member. Where two members
    /// have the same name, no table is built: the error points at the first
    /// member that repeats a name and at the member that had the name
    /// first.
    pub fn build(names: &Vec<Option<String>>) -> (r: Result<LookupTable, BuildError>)
        ensures
            r is Ok <==> distinct_names(name_views(names@)),
            r matches Ok(table) ==> table@ == index_map(name_views(names@)),
            r matches Err(e) ==> exists|i: int, j: int|
                first_collision(name_views(names@), i, j) && e@ == duplicate_name_error(i, j),
    {
        let ghost all = name_views(names@);
        let mut entries: Vec<Entry> = Vec::new();
        let mut n: usize = 0;
        while n < names.len()
            invariant
                n <= names.len(),
                all == name_views(names@),
                sorted(entries@),
                holds_names(entries@, all, n as int),
                forall|i: int, j: int| collides(all, i, j) ==> j >= n,
            decreases names.len() - n,
        {
            match &names[n] {
                None => {
                    assert(all[n as int] is None);
                },
                Some(name) => {
                    assert(all[n as int] == Some(name@));
                    let key = chars_of(name.as_str());
                    match search(&entries, &key) {
                        Ok(at) => {
                            let first = entries[at].index;
                            proof {
                                lemma_first_collision(all, first as int, n as int);
                            }
                            let mut error = BuildError::new(
                                ErrorKind::DuplicateLookupKey,
                                Location { member: Some(first), place: Place::Declaration },
                                message::NAME_ONCE,
                            );
                            error.push(
                                ErrorKind::DuplicateLookupKey,
                                Location { member: Some(n), place: Place::Declaration },
                                message::DUPLICATE_NAME,
                            );
                            assert(error@ =~= duplicate_name_error(first as int, n as int));
                            return Err(error);
                        },
                        Err(at) => {
                            let entry = Entry { key, index: n };
                            proof {
                                lemma_insert_entry(entries@, at as int, entry, all, n as int);
                            }
                            entries.insert(at, entry);
                        },
                    }
                },
            }
            n += 1;
        }
        let table = LookupTable { entries };
        proof {
            lemma_table_is_index_map(table.entries@, all);
            assert(table@ =~= index_map(all));
        }
        Ok(table)
    }

    /// The position of the member named `name`, if there is one.
    pub fn lookup(&self, name: &str) -> (r: Option<usize>)
        ensures
            r == (if self@.contains_key(name@) {
                Some(self@[name@])
            } else {
                None
            }),
    {
        proof {
            use_type_invariant(self);
        }
        let key = chars_of(name);
        match search(&self.entries, &key) {
            Ok(at) => {
                proof {
                    let chosen = entry_of(self.entries@, key@);
                    if chosen != at {
                        if chosen < at {
                            lemma_precedes_irreflexive(
                                self.entries@[chosen].key@,
                                self.entries@[at as int].key@,
                            );
                        } else {
                            lemma_precedes_irreflexive(
                                self.entries@[at as int].key@,
                                self.entries@[chosen].key@,
                            );
                        }
                    }
                }
                Some(self.entries[at].index)
            },
            Err(_) => None,
        }
    }

    /// Whether the table holds no name.
    pub fn is_empty(&self) -> (r: bool)
        ensures
            r <==> self@.dom() =~= Set::<Seq<char>>::empty(),
    {
        proof {
            if self.entries@.len() > 0 {
                assert(has_key(self.entries@, self.entries@[0].key@));
                assert(self@.dom().contains(self.entries@[0].key@));
            }
        }
        self.entries.len() == 0
    }
}

/// The member at position `j` is the first to repeat a name, where none
/// before it does and the member at position `i` before it has its name.
proof fn lemma_first_collision(names: Seq<Option<Seq<char>>>, i: int, j: int)
    requires
        collides(names, i, j),
        forall|a: int, b: int| collides(names, a, b) ==> b >= j,
    ensures
        first_collision(names, i, j),
{
    assert forall|a: int, b: int| collides(names, a, b) implies j <= b && (b == j ==> i <= a) by {
        if b == j && a < i {
            assert(collides(names, a, i));
        }
    }
}

/// An entry for the member at position `n`, put where its key belongs, keeps
/// the entries sorted and makes them hold the names of the members up to
/// that one; and as its key was not among the entries, that member repeats
/// no name.
proof fn lemma_insert_entry(
    before: Seq<Entry>,
    at: int,
    entry: Entry,
    names: Seq<Option<Seq<char>>>,
    n: int,
)
    requires
        0 <= at <= before.len(),
        0 <= n < names.len(),
        sorted(before),
        holds_names(before, names, n),
        names[n] == Some(entry.key@),
        entry.index == n,
        !has_key(before, entry.key@),
        forall|i: int| 0 <= i < at ==> precedes(before[i].key@, entry.key@),
        forall|i: int| at <= i < before.len() ==> precedes(entry.key@, before[i].key@),
        forall|i: int, j: int| collides(names, i, j) ==> j >= n,
    ensures
        sorted(before.insert(at, entry)),
        holds_names(before.insert(at, entry), names, n + 1),
        forall|i: int, j: int| collides(names, i, j) ==> j >= n + 1,
{
    let after = before.insert(at, entry);
    assert forall|i: int, j: int| 0 <= i < j < after.len() implies precedes(
        after[i].key@,
        after[j].key@,
    ) by {
        let bi = if i < at {
            i
        } else {
            i - 1
        };
        let bj = if j < at {
            j
        } else {
            j - 1
        };
        if i != at {
            assert(after[i] == before[bi]);
        }
        if j != at {
            assert(after[j] == before[bj]);
        }
    }
    assert forall|i: int| 0 <= i < n + 1 && names[i] is Some implies exists|e: int|
        0 <= e < after.len() && after[e].key@ == names[i]->0 && after[e].index == i by {
        if i < n {
            let e = choose|e: int|
                0 <= e < before.len() && before[e].key@ == names[i]->0 && before[e].index == i;
            let moved = if e < at {
                e
            } else {
                e + 1
            };
            assert(after[moved] == before[e]);
        } else {
            assert(after[at].key@ == names[i]->0);
        }
    }
    assert forall|e: int| 0 <= e < after.len() implies 0 <= (#[trigger] after[e]).index < n + 1
        && names[after[e].index as int] == Some(after[e].key@) by {
        if e < at {
            assert(after[e] == before[e]);
        } else if e > at {
            assert(after[e] == before[e - 1]);
        }
    }
    assert forall|i: int, j: int| collides(names, i, j) implies j >= n + 1 by {
        if j == n {
            let e = choose|e: int|
                0 <= e < before.len() && before[e].key@ == names[i]->0 && before[e].index == i;
            assert(has_key(before, entry.key@));
        }
    }
}

/// The entries that hold the names of all members are the index map of the
/// names, where no name occurs twice.
proof fn lemma_table_is_index_map(entries: Seq<Entry>, names: Seq<Option<Seq<char>>>)
    requires
        sorted(entries),
        holds_names(entries, names, names.len() as int),
        distinct_names(names),
    ensures
        forall|key: Seq<char>|
            has_key(entries, key) <==> exists|i: int| 0 <= i < names.len() && names[i] == Some(key),
        forall|key: Seq<char>|
            has_key(entries, key) ==> entries[entry_of(entries, key)].index == first_index(
                names,
                key,
                0,
            ),
{
    assert forall|key: Seq<char>| has_key(entries, key) implies (exists|i: int|
        0 <= i < names.len() && names[i] == Some(key)) && entries[entry_of(entries, key)].index
        == first_index(names, key, 0) by {
        let e = entry_of(entries, key);
        let i = entries[e].index as int;
        assert(names[i] == Some(key));
        lemma_first_index(names, key, 0, i);
    }
    assert forall|key: Seq<char>|
        (exists|i: int| 0 <= i < names.len() && names[i] == Some(key)) implies has_key(
        entries,
        key,
    ) by {
        let i = choose|i: int| 0 <= i < names.len() && names[i] == Some(key);
        assert(names[i] is Some);
        let e = choose|e: int|
            0 <= e < entries.len() && entries[e].key@ == names[i]->0 && entries[e].index == i;
        assert(entries[e].key@ == key);
    }
}

/// Where no name occurs twice, the first member of a name is the only one.
proof fn lemma_first_index(names: Seq<Option<Seq<char>>>, key: Seq<char>, from: int, i: int)
    requires
        0 <= from <= i < names.len(),
        names[i] == Some(key),
        distinct_names(names),
    ensures
        first_index(names, key, from) == i,
    decreases i - from,
{
    if from < i {
        if names[from] == Some(key) {
            assert(collides(names, from, i));
        }
        lemma_first_index(names, key, from + 1, i);
    }
}

/// A table built of names of which none occurs twice finds every name at
/// the position of its member, and no other name.
pub proof fn law_lookup_finds_every_name(names: Seq<Option<Seq<char>>>)
    requires
        distinct_names(names),
        names.len() <= usize::MAX,
    ensures
        forall|i: int|
            0 <= i < names.len() && names[i] is Some ==> index_map(names).contains_key(
                (#[trigger] names[i])->0,
            ) && index_map(names)[names[i]->0] == i,
        forall|key: Seq<char>|
            (forall|i: int| 0 <= i < names.len() ==> names[i] != Some(key)) ==> !index_map(
                names,
            ).contains_key(key),
{
    assert forall|i: int| 0 <= i < names.len() && names[i] is Some implies index_map(
        names,
    ).contains_key((#[trigger] names[i])->0) && index_map(names)[names[i]->0] == i by {
        let key = names[i]->0;
        assert(names[i] == Some(key));
        lemma_first_index(names, key, 0, i);
    }
}

} // verus!
