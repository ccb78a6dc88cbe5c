//! Service discovery: the services of a project are the directories directly
//! below its services root, listed in a fixed order.

use vstd::prelude::*;
use vstd::string::*;
use vstd::utf8::*;
use crate::error::{ErrorKind, Fault, MeshstackError};
use crate::text::{same_text, texts};

verus! {

/// One entry directly below the services root, with what was found in it.
#[derive(Debug)]
pub struct DirEntry {
    pub name: String,
    /// Whether the entry is a directory.
    pub is_dir: bool,
    /// Whether it holds a container build descriptor.
    pub has_dockerfile: bool,
    /// Whether it holds a chart descriptor.
    pub has_chart: bool,
}

/// The mathematical content of a [`DirEntry`].
pub struct Entry {
    pub name: Seq<char>,
    pub is_dir: bool,
    pub has_dockerfile: bool,
    pub has_chart: bool,
}

impl View for DirEntry {
    type V = Entry;

    open spec fn view(&self) -> Entry {
        Entry {
            name: self.name@,
            is_dir: self.is_dir,
            has_dockerfile: self.has_dockerfile,
            has_chart: self.has_chart,
        }
    }
}

/// What was found at the services root.
#[derive(Debug)]
pub enum ServicesRoot {
    /// There is no services root.
    Absent,
    /// The services root exists and holds these entries.
    Present(Vec<DirEntry>),
}

/// The content of a list of directory entries, in order.
pub open spec fn entries_of(items: Seq<DirEntry>) -> Seq<Entry> {
    items.map_values(|e: DirEntry| e@)
}

impl ServicesRoot {
    /// The entries below the root, or nothing where there is no root.
    pub open spec fn listing(&self) -> Option<Seq<Entry>> {
        match *self {
            ServicesRoot::Absent => None,
            ServicesRoot::Present(items) => Some(entries_of(items@)),
        }
    }
}

/// The order of names: byte by byte, a proper prefix first.
pub open spec fn precedes(a: Seq<u8>, b: Seq<u8>) -> bool
    decreases a.len(),
{
    if a.len() == 0 {
        true
    } else if b.len() == 0 {
        false
    } else if a[0] != b[0] {
        a[0] < b[0]
    } else {
        precedes(a.subrange(1, a.len() as int), b.subrange(1, b.len() as int))
    }
}

/// The order of names, on their UTF-8 encoding.
pub open spec fn name_precedes(a: Seq<char>, b: Seq<char>) -> bool {
    precedes(encode_utf8(a), encode_utf8(b))
}

/// Whether a list of names is in ascending order.
pub open spec fn ascending(names: Seq<Seq<char>>) -> bool {
    forall|i: int, j: int| 0 <= i <= j < names.len() ==> name_precedes(names[i], names[j])
}

/// How often `name` stands in `names`.
pub open spec fn occurrences(names: Seq<Seq<char>>, name: Seq<char>) -> nat
    decreases names.len(),
{
    if names.len() == 0 {
        0
    } else {
        occurrences(names.drop_last(), name) + if names.last() == name {
            1nat
        } else {
            0nat
        }
    }
}

/// The names of the entries that are directories, in the order of the entries.
pub open spec fn directory_names(entries: Seq<Entry>) -> Seq<Seq<char>>
    decreases entries.len(),
{
    if entries.len() == 0 {
        seq![]
    } else if entries.last().is_dir {
        directory_names(entries.drop_last()).push(entries.last().name)
    } else {
        directory_names(entries.drop_last())
    }
}

/// Where `name` goes in an ascending list: before the first name that does not
/// precede it, or at the end.
pub open spec fn slot(sorted: Seq<Seq<char>>, name: Seq<char>) -> int
    decreases sorted.len(),
{
    if sorted.len() == 0 || !name_precedes(sorted[0], name) {
        0
    } else {
        1 + slot(sorted.subrange(1, sorted.len() as int), name)
    }
}

/// The services below a root: the names of the directory entries, each put in
/// its place among those before it.
pub open spec fn service_names(entries: Seq<Entry>) -> Seq<Seq<char>>
    decreases entries.len(),
{
    if entries.len() == 0 {
        seq![]
    } else {
        let rest = service_names(entries.drop_last());
        if entries.last().is_dir {
            rest.insert(slot(rest, entries.last().name), entries.last().name)
        } else {
            rest
        }
    }
}

/// The failure for a project without a services root.
pub open spec fn services_root_missing() -> Fault {
    Fault {
        kind: ErrorKind::PreconditionFailed,
        message: "Services directory not found. Please run `meshstack init` first."@,
    }
}

/// Any two names are ordered one way or the other.
pub proof fn lemma_precedes_total(a: Seq<u8>, b: Seq<u8>)
    ensures
        precedes(a, b) || precedes(b, a),
    decreases a.len(),
{
    if a.len() > 0 && b.len() > 0 && a[0] == b[0] {
        lemma_precedes_total(a.subrange(1, a.len() as int), b.subrange(1, b.len() as int));
    }
}

/// The order of names is transitive.
pub proof fn lemma_precedes_transitive(a: Seq<u8>, b: Seq<u8>, c: Seq<u8>)
    requires
        precedes(a, b),
        precedes(b, c),
    ensures
        precedes(a, c),
    decreases a.len(),
{
    if a.len() > 0 && b.len() > 0 && c.len() > 0 && a[0] == b[0] && b[0] == c[0] {
        lemma_precedes_transitive(
            a.subrange(1, a.len() as int),
            b.subrange(1, b.len() as int),
            c.subrange(1, c.len() as int),
        );
    }
}

/// Every name precedes itself.
pub proof fn lemma_precedes_reflexive(a: Seq<u8>)
    ensures
        precedes(a, a),
    decreases a.len(),
{
    if a.len() > 0 {
        lemma_precedes_reflexive(a.subrange(1, a.len() as int));
    }
}

/// Two names that precede each other are the same name.
pub proof fn lemma_precedes_antisymmetric(a: Seq<u8>, b: Seq<u8>)
    requires
        precedes(a, b),
        precedes(b, a),
    ensures
        a == b,
    decreases a.len(),
{
    if a.len() > 0 && b.len() > 0 {
        lemma_precedes_antisymmetric(a.subrange(1, a.len() as int), b.subrange(1, b.len() as int));
        assert(a =~= seq![a[0]] + a.subrange(1, a.len() as int));
        assert(b =~= seq![b[0]] + b.subrange(1, b.len() as int));
    } else {
        assert(a =~= b);
    }
}

/// Inserting a name adds one occurrence of that name and none of any other.
pub proof fn lemma_occurrences_insert(
    names: Seq<Seq<char>>,
    at: int,
    name: Seq<char>,
    other: Seq<char>,
)
    requires
        0 <= at <= names.len(),
    ensures
        occurrences(names.insert(at, name), other) == occurrences(names, other) + if name
            == other {
            1nat
        } else {
            0nat
        },
    decreases names.len(),
{
    let grown = names.insert(at, name);
    if at == names.len() {
        assert(grown.drop_last() =~= names);
        assert(grown.last() == name);
    } else {
        assert(grown.drop_last() =~= names.drop_last().insert(at, name));
        assert(grown.last() == names.last());
        lemma_occurrences_insert(names.drop_last(), at, name, other);
    }
}

/// Whether `a` precedes `b` in the order of names.
pub fn comes_before(a: &str, b: &str) -> (r: bool)
    ensures
        r == name_precedes(a@, b@),
{
    let x = a.as_bytes();
    let y = b.as_bytes();
    let ghost xs = x@;
    let ghost ys = y@;
    assert(xs.subrange(0, xs.len() as int) =~= xs);
    assert(ys.subrange(0, ys.len() as int) =~= ys);
    let mut i: usize = 0;
    while i < x.len() && i < y.len()
        invariant
            i <= x.len(),
            i <= y.len(),
            xs == x@,
            ys == y@,
            xs == encode_utf8(a@),
            ys == encode_utf8(b@),
            precedes(xs, ys) == precedes(
                xs.subrange(i as int, xs.len() as int),
                ys.subrange(i as int, ys.len() as int),
            ),
        decreases x.len() - i,
    {
        let ghost xr = xs.subrange(i as int, xs.len() as int);
        let ghost yr = ys.subrange(i as int, ys.len() as int);
        assert(xr[0] == x@[i as int]);
        assert(yr[0] == y@[i as int]);
        if x[i] != y[i] {
            return x[i] < y[i];
        }
        assert(xr.subrange(1, xr.len() as int) =~= xs.subrange(i as int + 1, xs.len() as int));
        assert(yr.subrange(1, yr.len() as int) =~= ys.subrange(i as int + 1, ys.len() as int));
        i += 1;
    }
    i == x.len()
}

/// The place of a name is within the list, after names that precede it and
/// before one that does not.
pub proof fn lemma_slot_bounds(sorted: Seq<Seq<char>>, name: Seq<char>)
    ensures
        0 <= slot(sorted, name) <= sorted.len(),
        forall|k: int| 0 <= k < slot(sorted, name) ==> name_precedes(#[trigger] sorted[k], name),
        slot(sorted, name) < sorted.len() ==> !name_precedes(sorted[slot(sorted, name)], name),
    decreases sorted.len(),
{
    if sorted.len() == 0 || !name_precedes(sorted[0], name) {
    } else {
        let rest = sorted.subrange(1, sorted.len() as int);
        lemma_slot_bounds(rest, name);
        assert forall|k: int| 0 <= k < slot(sorted, name) implies name_precedes(
            #[trigger] sorted[k],
            name,
        ) by {
            if k > 0 {
                assert(sorted[k] == rest[k - 1]);
            }
        }
        if slot(sorted, name) < sorted.len() {
            assert(sorted[slot(sorted, name)] == rest[slot(rest, name)]);
        }
    }
}

/// The place of a name is the first position that holds a name not preceding it.
pub proof fn lemma_slot_is(sorted: Seq<Seq<char>>, name: Seq<char>, at: int)
    requires
        0 <= at <= sorted.len(),
        forall|k: int| 0 <= k < at ==> name_precedes(#[trigger] sorted[k], name),
        at < sorted.len() ==> !name_precedes(sorted[at], name),
    ensures
        slot(sorted, name) == at,
{
    lemma_slot_bounds(sorted, name);
    let s = slot(sorted, name);
    if s < at {
        assert(name_precedes(sorted[s], name));
    } else if at < s {
        assert(name_precedes(sorted[at], name));
    }
}

/// The services of a root are in ascending order of names.
pub proof fn lemma_service_names_ascending(entries: Seq<Entry>)
    ensures
        ascending(service_names(entries)),
    decreases entries.len(),
{
    if entries.len() > 0 {
        lemma_service_names_ascending(entries.drop_last());
        let before = service_names(entries.drop_last());
        if entries.last().is_dir {
            let name = entries.last().name;
            let at = slot(before, name);
            lemma_slot_bounds(before, name);
            let after = before.insert(at, name);
            assert forall|p: int, q: int| 0 <= p <= q < after.len() implies name_precedes(
                after[p],
                after[q],
            ) by {
                if p == at {
                    if q == at {
                        lemma_precedes_reflexive(encode_utf8(name));
                    } else {
                        assert(name_precedes(before[at], before[q - 1]));
                        lemma_precedes_total(encode_utf8(before[at]), encode_utf8(name));
                        lemma_precedes_transitive(
                            encode_utf8(name),
                            encode_utf8(before[at]),
                            encode_utf8(before[q - 1]),
                        );
                    }
                } else if q == at {
                    assert(name_precedes(before[p], name));
                } else {
                    let p0 = if p < at { p } else { p - 1 };
                    let q0 = if q < at { q } else { q - 1 };
                    assert(name_precedes(before[p0], before[q0]));
                }
            }
        }
    }
}

/// The services of a root are its directory entries, no more and no fewer:
/// every name stands among the services as often as among the directories.
pub proof fn lemma_service_names_complete(entries: Seq<Entry>, name: Seq<char>)
    ensures
        occurrences(service_names(entries), name) == occurrences(directory_names(entries), name),
        service_names(entries).len() == directory_names(entries).len(),
    decreases entries.len(),
{
    if entries.len() > 0 {
        lemma_service_names_complete(entries.drop_last(), name);
        if entries.last().is_dir {
            let before = service_names(entries.drop_last());
            let listed = directory_names(entries.drop_last());
            let added = entries.last().name;
            lemma_slot_bounds(before, added);
            lemma_occurrences_insert(before, slot(before, added), added, name);
            assert(listed.push(added).drop_last() =~= listed);
        }
    }
}

/// The names of the services below the root: every directory entry, and no
/// other entry, in ascending order of names. A project without a services
/// root has not been initialised, which is a failure; a root without
/// directories is an empty list.
pub fn list_services(root: &ServicesRoot) -> (r: Result<Vec<String>, MeshstackError>)
    ensures
        match r {
            Ok(names) => root.listing() is Some && texts(names@) == service_names(
                root.listing()->0,
            ),
            Err(e) => root.listing() is None && e@ == services_root_missing(),
        },
{
    let items = match root {
        ServicesRoot::Absent => {
            return Err(
                MeshstackError::new(
                    ErrorKind::PreconditionFailed,
                    String::from_str(
                        "Services directory not found. Please run `meshstack init` first.",
                    ),
                ),
            );
        },
        ServicesRoot::Present(items) => items,
    };
    Ok(sorted_directories(items))
}

/// The names of the directory entries among `items`, in ascending order.
pub fn sorted_directories(items: &Vec<DirEntry>) -> (names: Vec<String>)
    ensures
        texts(names@) == service_names(entries_of(items@)),
{
    let ghost all = entries_of(items@);
    let mut names: Vec<String> = Vec::new();
    let mut i: usize = 0;
    while i < items.len()
        invariant
            i <= items.len(),
            all == entries_of(items@),
            texts(names@) == service_names(all.take(i as int)),
        decreases items.len() - i,
    {
        assert(all.take(i as int + 1).drop_last() =~= all.take(i as int));
        assert(all.take(i as int + 1).last() == items@[i as int]@);
        if items[i].is_dir {
            let name = items[i].name.clone();
            let ghost before = texts(names@);
            let mut at: usize = 0;
            while at < names.len() && comes_before(names[at].as_str(), name.as_str())
                invariant
                    at <= names.len(),
                    before == texts(names@),
                    forall|k: int| 0 <= k < at ==> name_precedes(#[trigger] before[k], name@),
                decreases names.len() - at,
            {
                at += 1;
            }
            proof {
                lemma_slot_is(before, name@, at as int);
            }
            names.insert(at, name);
            assert(texts(names@) =~= before.insert(at as int, name@));
        }
        i += 1;
    }
    assert(all.take(items.len() as int) =~= all);
    names
}

/// What is known of the service `name`: whether it has a build descriptor and
/// a chart descriptor. A name without a directory entry has neither.
pub open spec fn artifacts_of(entries: Seq<Entry>, name: Seq<char>) -> (bool, bool)
    decreases entries.len(),
{
    if entries.len() == 0 {
        (false, false)
    } else if entries[0].is_dir && entries[0].name == name {
        (entries[0].has_dockerfile, entries[0].has_chart)
    } else {
        artifacts_of(entries.subrange(1, entries.len() as int), name)
    }
}

/// Looks up which descriptors the service `name` has among `items`.
pub fn find_artifacts(items: &Vec<DirEntry>, name: &str) -> (r: (bool, bool))
    ensures
        r == artifacts_of(entries_of(items@), name@),
{
    let ghost all = entries_of(items@);
    assert(all.subrange(0, all.len() as int) =~= all);
    let mut i: usize = 0;
    while i < items.len()
        invariant
            i <= items.len(),
            all == entries_of(items@),
            artifacts_of(all, name@) == artifacts_of(
                all.subrange(i as int, all.len() as int),
                name@,
            ),
        decreases items.len() - i,
    {
        let ghost rest = all.subrange(i as int, all.len() as int);
        assert(rest[0] == items@[i as int]@);
        assert(rest.subrange(1, rest.len() as int) =~= all.subrange(i as int + 1, all.len() as int));
        if items[i].is_dir && same_text(items[i].name.as_str(), name) {
            return (items[i].has_dockerfile, items[i].has_chart);
        }
        i += 1;
    }
    assert(all.subrange(items.len() as int, all.len() as int).len() == 0);
    (false, false)
}

} // verus!
