//! The data that the clipboard holds: values, the selection cache and the handover status.

use vstd::prelude::*;
use vstd::slice::slice_to_vec;

use crate::clipboard::atoms::Atoms;
use crate::display::Atom;
use crate::window::Window;

verus! {

/// A value of a selection in one format.
pub struct ClipboardData {
    pub bytes: Vec<u8>,
    pub format: Atom,
    pub timestamp: u32,
}

/// Whether two values hold the same bytes, format and timestamp.
pub open spec fn same_data(a: ClipboardData, b: ClipboardData) -> bool {
    a.bytes@ == b.bytes@ && a.format == b.format && a.timestamp == b.timestamp
}

impl ClipboardData {
    pub fn new(bytes: Vec<u8>, format: Atom, timestamp: u32) -> (r: ClipboardData)
        ensures
            r.bytes@ == bytes@,
            r.format == format,
            r.timestamp == timestamp,
    {
        ClipboardData { bytes, format, timestamp }
    }

    /// A value with timestamp 0.
    pub fn from_bytes(bytes: Vec<u8>, format: Atom) -> (r: ClipboardData)
        ensures
            r.bytes@ == bytes@,
            r.format == format,
            r.timestamp == 0,
    {
        ClipboardData { bytes, format, timestamp: 0 }
    }

    pub fn bytes(&self) -> (r: &[u8])
        ensures
            r@ == self.bytes@,
    {
        self.bytes.as_slice()
    }

    pub fn size(&self) -> (r: usize)
        ensures
            r == self.bytes@.len(),
    {
        self.bytes.len()
    }

    pub fn is_empty(&self) -> (r: bool)
        ensures
            r == (self.bytes@.len() == 0),
    {
        self.bytes.len() == 0
    }

    /// A copy of this value.
    pub fn copy(&self) -> (r: ClipboardData)
        ensures
            same_data(r, *self),
    {
        ClipboardData {
            bytes: slice_to_vec(self.bytes.as_slice()),
            format: self.format,
            timestamp: self.timestamp,
        }
    }
}

/// The size that TARGET_SIZES reports for a target; -1 where it is not known.
#[derive(Debug, Clone, Copy, PartialEq, Eq, Structural)]
pub struct TargetSize {
    pub target: Atom,
    pub size: i32,
}

impl TargetSize {
    pub fn new(target: Atom, size: i32) -> (r: TargetSize)
        ensures
            r == (TargetSize { target, size }),
    {
        TargetSize { target, size }
    }
}

/// One value of the cache, under its selection and target.
pub struct CacheEntry {
    pub selection: Atom,
    pub target: Atom,
    pub data: ClipboardData,
}

/// The value stored under `(selection, target)`: the last entry with that key.
pub open spec fn lookup(s: Seq<CacheEntry>, selection: Atom, target: Atom) -> Option<CacheEntry>
    decreases s.len(),
{
    if s.len() == 0 {
        None
    } else if s.last().selection == selection && s.last().target == target {
        Some(s.last())
    } else {
        lookup(s.drop_last(), selection, target)
    }
}

/// Whether an entry falls under `selection` and, when given, `target`.
pub open spec fn under(e: CacheEntry, selection: Atom, target: Option<Atom>) -> bool {
    e.selection == selection && match target {
        Some(t) => e.target == t,
        None => true,
    }
}

/// `s` without the entries under `selection` (and `target`, when given).
pub open spec fn dropped(s: Seq<CacheEntry>, selection: Atom, target: Option<Atom>) -> Seq<CacheEntry>
    decreases s.len(),
{
    if s.len() == 0 {
        Seq::empty()
    } else if under(s.last(), selection, target) {
        dropped(s.drop_last(), selection, target)
    } else {
        dropped(s.drop_last(), selection, target).push(s.last())
    }
}

pub proof fn lemma_lookup_dropped(
    s: Seq<CacheEntry>,
    selection: Atom,
    target: Option<Atom>,
    s2: Atom,
    t2: Atom,
)
    ensures
        lookup(dropped(s, selection, target), s2, t2) == if s2 == selection && match target {
            Some(t) => t2 == t,
            None => true,
        } {
            None
        } else {
            lookup(s, s2, t2)
        },
    decreases s.len(),
{
    if s.len() > 0 {
        lemma_lookup_dropped(s.drop_last(), selection, target, s2, t2);
        let rest = dropped(s.drop_last(), selection, target);
        if !under(s.last(), selection, target) {
            assert(rest.push(s.last()).drop_last() =~= rest);
        }
    }
}

pub proof fn lemma_lookup_found(s: Seq<CacheEntry>, i: int)
    requires
        0 <= i < s.len(),
    ensures
        lookup(s, s[i].selection, s[i].target) is Some,
    decreases s.len(),
{
    if i < s.len() - 1 {
        lemma_lookup_found(s.drop_last(), i);
    }
}

pub proof fn lemma_lookup_in(s: Seq<CacheEntry>, selection: Atom, target: Atom)
    requires
        lookup(s, selection, target) is Some,
    ensures
        exists|i: int|
            0 <= i < s.len() && s[i] == lookup(s, selection, target)->0 && s[i].selection
                == selection && s[i].target == target,
    decreases s.len(),
{
    if !(s.last().selection == selection && s.last().target == target) {
        lemma_lookup_in(s.drop_last(), selection, target);
        let i = choose|i: int|
            0 <= i < s.drop_last().len() && s.drop_last()[i] == lookup(
                s.drop_last(),
                selection,
                target,
            )->0 && s.drop_last()[i].selection == selection && s.drop_last()[i].target == target;
        assert(s[i] == s.drop_last()[i]);
    } else {
        assert(s[s.len() - 1] == s.last());
    }
}

/// Whether `target` is one of the targets that the selection protocol itself answers.
pub open spec fn meta_target(atoms: Atoms, target: Atom) -> bool {
    target == atoms.protocol.multiple || target == atoms.protocol.save_targets || target
        == atoms.protocol.targets || target == atoms.protocol.target_sizes
}

/// `s` with `a` appended unless it is already there.
pub open spec fn add_new(s: Seq<Atom>, a: Atom) -> Seq<Atom> {
    if s.contains(a) {
        s
    } else {
        s.push(a)
    }
}

/// Whether an entry holds a data target of `selection`: neither a side-effect target nor one
/// that the protocol itself answers.
pub open spec fn data_entry(e: CacheEntry, selection: Atom, atoms: Atoms) -> bool {
    e.selection == selection && !atoms.side_effect(e.target) && !meta_target(atoms, e.target)
}

/// The data targets of `selection`, each once, in the order of their first entries.
pub open spec fn data_targets(s: Seq<CacheEntry>, selection: Atom, atoms: Atoms) -> Seq<Atom>
    decreases s.len(),
{
    if s.len() == 0 {
        Seq::empty()
    } else if data_entry(s.last(), selection, atoms) {
        add_new(data_targets(s.drop_last(), selection, atoms), s.last().target)
    } else {
        data_targets(s.drop_last(), selection, atoms)
    }
}

/// The list that TARGETS reports for `selection`: its data targets, then MULTIPLE,
/// SAVE_TARGETS, TARGETS and TARGET_SIZES, each atom once.
pub open spec fn target_list(s: Seq<CacheEntry>, selection: Atom, atoms: Atoms) -> Seq<Atom> {
    add_new(
        add_new(
            add_new(
                add_new(data_targets(s, selection, atoms), atoms.protocol.multiple),
                atoms.protocol.save_targets,
            ),
            atoms.protocol.targets,
        ),
        atoms.protocol.target_sizes,
    )
}

pub proof fn lemma_add_new(s: Seq<Atom>, a: Atom)
    requires
        s.no_duplicates(),
    ensures
        add_new(s, a).no_duplicates(),
        forall|x: Atom| add_new(s, a).contains(x) <==> (s.contains(x) || x == a),
{
    if !s.contains(a) {
        let t = s.push(a);
        assert forall|i: int, j: int| 0 <= i < t.len() && 0 <= j < t.len() && i != j implies t[i]
            != t[j] by {
            if i == s.len() as int {
                assert(s.contains(t[j]) ==> t[i] != t[j]);
                assert(t[j] == s[j]);
            } else if j == s.len() as int {
                assert(t[i] == s[i]);
            }
        }
        assert forall|x: Atom| t.contains(x) <==> (s.contains(x) || x == a) by {
            if s.contains(x) {
                let k = choose|k: int| 0 <= k < s.len() && s[k] == x;
                assert(t[k] == x);
            }
            if x == a {
                assert(t[s.len() as int] == x);
            }
            if t.contains(x) && x != a {
                let k = choose|k: int| 0 <= k < t.len() && t[k] == x;
                assert(s[k] == x);
            }
        }
    }
}

pub open spec fn has_data_target(s: Seq<CacheEntry>, selection: Atom, atoms: Atoms, x: Atom) -> bool {
    exists|i: int| 0 <= i < s.len() && #[trigger] s[i].target == x && data_entry(s[i], selection, atoms)
}

pub proof fn lemma_data_targets(s: Seq<CacheEntry>, selection: Atom, atoms: Atoms)
    ensures
        data_targets(s, selection, atoms).no_duplicates(),
        forall|x: Atom|
            #![trigger data_targets(s, selection, atoms).contains(x)]
            data_targets(s, selection, atoms).contains(x) <==> has_data_target(s, selection, atoms, x),
    decreases s.len(),
{
    if s.len() > 0 {
        let prev = s.drop_last();
        let last = s.last();
        lemma_data_targets(prev, selection, atoms);
        let d = data_targets(prev, selection, atoms);
        if data_entry(last, selection, atoms) {
            lemma_add_new(d, last.target);
        }
        assert forall|x: Atom|
            #![trigger data_targets(s, selection, atoms).contains(x)]
            data_targets(s, selection, atoms).contains(x) <==> has_data_target(s, selection, atoms, x) by {
            assert(d.contains(x) <==> has_data_target(prev, selection, atoms, x));
            if has_data_target(prev, selection, atoms, x) {
                let i = choose|i: int|
                    0 <= i < prev.len() && #[trigger] prev[i].target == x && data_entry(
                        prev[i],
                        selection,
                        atoms,
                    );
                assert(s[i] == prev[i]);
            }
            if has_data_target(s, selection, atoms, x) {
                let i = choose|i: int|
                    0 <= i < s.len() && #[trigger] s[i].target == x && data_entry(
                        s[i],
                        selection,
                        atoms,
                    );
                if i < s.len() - 1 {
                    assert(prev[i] == s[i]);
                } else {
                    assert(s[i] == last);
                }
            }
            if data_entry(last, selection, atoms) && x == last.target {
                assert(s[s.len() - 1] == last);
            }
        }
    }
}

/// The TARGETS list holds each atom once: the data targets of `selection` and the four
/// targets that the protocol answers, and nothing else.
pub proof fn lemma_target_list(s: Seq<CacheEntry>, selection: Atom, atoms: Atoms)
    ensures
        target_list(s, selection, atoms).no_duplicates(),
        forall|x: Atom|
            #![trigger target_list(s, selection, atoms).contains(x)]
            target_list(s, selection, atoms).contains(x) <==> (meta_target(atoms, x)
                || has_data_target(s, selection, atoms, x)),
{
    lemma_data_targets(s, selection, atoms);
    let d = data_targets(s, selection, atoms);
    lemma_add_new(d, atoms.protocol.multiple);
    let d1 = add_new(d, atoms.protocol.multiple);
    lemma_add_new(d1, atoms.protocol.save_targets);
    let d2 = add_new(d1, atoms.protocol.save_targets);
    lemma_add_new(d2, atoms.protocol.targets);
    let d3 = add_new(d2, atoms.protocol.targets);
    lemma_add_new(d3, atoms.protocol.target_sizes);
    assert forall|x: Atom|
        #![trigger target_list(s, selection, atoms).contains(x)]
        target_list(s, selection, atoms).contains(x) <==> (meta_target(atoms, x)
            || has_data_target(s, selection, atoms, x)) by {
        assert(d.contains(x) <==> has_data_target(s, selection, atoms, x));
        assert(d1.contains(x) <==> (d.contains(x) || x == atoms.protocol.multiple));
        assert(d2.contains(x) <==> (d1.contains(x) || x == atoms.protocol.save_targets));
        assert(d3.contains(x) <==> (d2.contains(x) || x == atoms.protocol.targets));
    }
}

/// The size reported for an entry: its length, or -1 for a side-effect format.
pub open spec fn entry_size(e: CacheEntry, atoms: Atoms) -> i32 {
    if atoms.side_effect(e.data.format) {
        -1i32
    } else {
        e.data.bytes@.len() as i32
    }
}

/// The sizes of the entries of `selection`.
pub open spec fn entry_sizes(s: Seq<CacheEntry>, selection: Atom, atoms: Atoms) -> Seq<TargetSize>
    decreases s.len(),
{
    if s.len() == 0 {
        Seq::empty()
    } else if s.last().selection == selection {
        entry_sizes(s.drop_last(), selection, atoms).push(
            TargetSize { target: s.last().target, size: entry_size(s.last(), atoms) },
        )
    } else {
        entry_sizes(s.drop_last(), selection, atoms)
    }
}

fn is_meta_target(atoms: &Atoms, target: Atom) -> (r: bool)
    ensures
        r == meta_target(*atoms, target),
{
    target == atoms.protocol.multiple || target == atoms.protocol.save_targets || target
        == atoms.protocol.targets || target == atoms.protocol.target_sizes
}

/// Appends `a` unless the list already holds it.
fn add_new_atom(list: &mut Vec<Atom>, a: Atom)
    ensures
        final(list)@ == add_new(old(list)@, a),
{
    let mut i: usize = 0;
    while i < list.len()
        invariant
            i <= list@.len(),
            list@ == old(list)@,
            forall|k: int| 0 <= k < i ==> list@[k] != a,
        decreases list@.len() - i,
    {
        if list[i] == a {
            assert(list@.contains(a));
            return;
        }
        i = i + 1;
    }
    list.push(a);
}

/// The last value of `data` in format `t`, if any.
pub open spec fn last_of_format(data: Seq<ClipboardData>, t: Atom) -> Option<ClipboardData>
    decreases data.len(),
{
    if data.len() == 0 {
        None
    } else if data.last().format == t {
        Some(data.last())
    } else {
        last_of_format(data.drop_last(), t)
    }
}

/// The values of the selections this client owns, by selection and target.
pub struct Cache {
    pub atoms: Atoms,
    pub entries: Vec<CacheEntry>,
}

impl Cache {
    pub fn new(atoms: Atoms) -> (r: Cache)
        ensures
            r.atoms == atoms,
            r.entries@.len() == 0,
    {
        Cache { atoms, entries: Vec::new() }
    }

    /// A copy of the value under `(selection, target)`.
    pub fn get(&self, selection: Atom, target: Atom) -> (r: Option<ClipboardData>)
        ensures
            match lookup(self.entries@, selection, target) {
                Some(e) => r is Some && same_data(r->0, e.data),
                None => r is None,
            },
    {
        let mut i = self.entries.len();
        assert(self.entries@.subrange(0, i as int) =~= self.entries@);
        while i > 0
            invariant
                i <= self.entries@.len(),
                lookup(self.entries@, selection, target) == lookup(
                    self.entries@.subrange(0, i as int),
                    selection,
                    target,
                ),
            decreases i,
        {
            let ghost pre = self.entries@.subrange(0, i as int);
            assert(pre.drop_last() =~= self.entries@.subrange(0, i - 1));
            let e = &self.entries[i - 1];
            if e.selection == selection && e.target == target {
                return Some(e.data.copy());
            }
            i = i - 1;
        }
        assert(self.entries@.subrange(0, 0).len() == 0);
        None
    }

    /// Drops the entries under `selection` and, when given, `target`.
    fn drop_matching(&mut self, selection: Atom, target: Option<Atom>)
        ensures
            final(self).atoms == old(self).atoms,
            final(self).entries@ == dropped(old(self).entries@, selection, target),
    {
        let mut kept: Vec<CacheEntry> = Vec::new();
        let mut rest: Vec<CacheEntry> = Vec::new();
        std::mem::swap(&mut rest, &mut self.entries);
        let ghost all = rest@;
        let ghost mut i: int = 0;
        while rest.len() > 0
            invariant
                0 <= i <= all.len(),
                rest@ == all.subrange(i, all.len() as int),
                kept@ == dropped(all.subrange(0, i), selection, target),
                self.atoms == old(self).atoms,
                all == old(self).entries@,
            decreases rest@.len(),
        {
            let e = rest.remove(0);
            proof {
                assert(all.subrange(0, i + 1).drop_last() =~= all.subrange(0, i));
                assert(all.subrange(0, i + 1).last() == e);
                i = i + 1;
                assert(rest@ =~= all.subrange(i, all.len() as int));
            }
            if !(e.selection == selection && match target {
                Some(t) => e.target == t,
                None => true,
            }) {
                kept.push(e);
            }
        }
        assert(all.subrange(0, i) =~= all);
        self.entries = kept;
    }

    /// Stores `data` under `(selection, target)`, replacing what was there.
    pub fn set(&mut self, selection: Atom, target: Atom, data: ClipboardData)
        ensures
            final(self).atoms == old(self).atoms,
            forall|s2: Atom, t2: Atom|
                #![trigger lookup(final(self).entries@, s2, t2)]
                lookup(final(self).entries@, s2, t2) == if s2 == selection && t2 == target {
                    Some(CacheEntry { selection, target, data })
                } else {
                    lookup(old(self).entries@, s2, t2)
                },
    {
        self.drop_matching(selection, Some(target));
        let ghost mid = self.entries@;
        self.entries.push(CacheEntry { selection, target, data });
        assert forall|s2: Atom, t2: Atom|
            #![trigger lookup(self.entries@, s2, t2)]
            lookup(self.entries@, s2, t2) == if s2 == selection && t2 == target {
                Some(CacheEntry { selection, target, data })
            } else {
                lookup(old(self).entries@, s2, t2)
            } by {
            assert(self.entries@.drop_last() =~= mid);
            lemma_lookup_dropped(old(self).entries@, selection, Some(target), s2, t2);
        }
    }

    /// Stores each value under `selection` and its own format; of two values with one format,
    /// the later is kept.
    pub fn set_all(&mut self, selection: Atom, data: Vec<ClipboardData>)
        ensures
            final(self).atoms == old(self).atoms,
            forall|s2: Atom, t2: Atom|
                #![trigger lookup(final(self).entries@, s2, t2)]
                lookup(final(self).entries@, s2, t2) == if s2 == selection && last_of_format(
                    data@,
                    t2,
                ) is Some {
                    Some(
                        CacheEntry {
                            selection,
                            target: t2,
                            data: last_of_format(data@, t2)->0,
                        },
                    )
                } else {
                    lookup(old(self).entries@, s2, t2)
                },
    {
        let mut rest = data;
        let ghost all = rest@;
        let ghost mut i: int = 0;
        while rest.len() > 0
            invariant
                0 <= i <= all.len(),
                rest@ == all.subrange(i, all.len() as int),
                self.atoms == old(self).atoms,
                forall|s2: Atom, t2: Atom|
                    #![trigger lookup(self.entries@, s2, t2)]
                    lookup(self.entries@, s2, t2) == if s2 == selection && last_of_format(
                        all.subrange(0, i),
                        t2,
                    ) is Some {
                        Some(
                            CacheEntry {
                                selection,
                                target: t2,
                                data: last_of_format(all.subrange(0, i), t2)->0,
                            },
                        )
                    } else {
                        lookup(old(self).entries@, s2, t2)
                    },
            decreases rest@.len(),
        {
            let item = rest.remove(0);
            let format = item.format;
            proof {
                assert(all[i] == item);
                assert(all.subrange(0, i + 1).drop_last() =~= all.subrange(0, i));
                assert(all.subrange(0, i + 1).last() == item);
            }
            self.set(selection, format, item);
            proof {
                i = i + 1;
                assert(rest@ =~= all.subrange(i, all.len() as int));
            }
        }
        assert(all.subrange(0, i) =~= all);
    }

    /// Drops the value under `(selection, target)`.
    pub fn remove(&mut self, selection: Atom, target: Atom)
        ensures
            final(self).atoms == old(self).atoms,
            final(self).entries@ == dropped(old(self).entries@, selection, Some(target)),
            forall|s2: Atom, t2: Atom|
                #![trigger lookup(final(self).entries@, s2, t2)]
                lookup(final(self).entries@, s2, t2) == if s2 == selection && t2 == target {
                    None
                } else {
                    lookup(old(self).entries@, s2, t2)
                },
    {
        self.drop_matching(selection, Some(target));
        assert forall|s2: Atom, t2: Atom|
            #![trigger lookup(self.entries@, s2, t2)]
            lookup(self.entries@, s2, t2) == if s2 == selection && t2 == target {
                None
            } else {
                lookup(old(self).entries@, s2, t2)
            } by {
            lemma_lookup_dropped(old(self).entries@, selection, Some(target), s2, t2);
        }
    }

    /// Drops every value of `selection`, as when another client takes it over.
    pub fn clear_selection(&mut self, selection: Atom)
        ensures
            final(self).atoms == old(self).atoms,
            final(self).entries@ == dropped(old(self).entries@, selection, None),
            forall|s2: Atom, t2: Atom|
                #![trigger lookup(final(self).entries@, s2, t2)]
                lookup(final(self).entries@, s2, t2) == if s2 == selection {
                    None
                } else {
                    lookup(old(self).entries@, s2, t2)
                },
    {
        self.drop_matching(selection, None);
        assert forall|s2: Atom, t2: Atom|
            #![trigger lookup(self.entries@, s2, t2)]
            lookup(self.entries@, s2, t2) == if s2 == selection {
                None
            } else {
                lookup(old(self).entries@, s2, t2)
            } by {
            lemma_lookup_dropped(old(self).entries@, selection, None, s2, t2);
        }
    }

    /// Drops every value.
    pub fn clear(&mut self)
        ensures
            final(self).atoms == old(self).atoms,
            final(self).entries@.len() == 0,
    {
        self.entries = Vec::new();
    }

    /// Whether no value of `selection` is stored.
    pub fn is_empty(&self, selection: Atom) -> (r: bool)
        ensures
            r == forall|t: Atom| #[trigger] lookup(self.entries@, selection, t) is None,
    {
        let mut i: usize = 0;
        while i < self.entries.len()
            invariant
                i <= self.entries@.len(),
                forall|k: int| 0 <= k < i ==> self.entries@[k].selection != selection,
            decreases self.entries@.len() - i,
        {
            if self.entries[i].selection == selection {
                proof {
                    lemma_lookup_found(self.entries@, i as int);
                }
                return false;
            }
            i = i + 1;
        }
        assert forall|t: Atom| #[trigger] lookup(self.entries@, selection, t) is None by {
            if lookup(self.entries@, selection, t) is Some {
                lemma_lookup_in(self.entries@, selection, t);
            }
        }
        true
    }

    /// The targets that TARGETS lists for `selection`, each once: those of its values that
    /// hand out data, then MULTIPLE, SAVE_TARGETS, TARGETS and TARGET_SIZES.
    pub fn get_targets(&self, selection: Atom) -> (r: Vec<Atom>)
        ensures
            r@ == target_list(self.entries@, selection, self.atoms),
            r@.no_duplicates(),
            forall|x: Atom|
                #![trigger r@.contains(x)]
                r@.contains(x) <==> (meta_target(self.atoms, x) || has_data_target(
                    self.entries@,
                    selection,
                    self.atoms,
                    x,
                )),
    {
        let mut targets: Vec<Atom> = Vec::new();
        let mut i: usize = 0;
        while i < self.entries.len()
            invariant
                i <= self.entries@.len(),
                targets@ == data_targets(self.entries@.subrange(0, i as int), selection, self.atoms),
            decreases self.entries@.len() - i,
        {
            assert(self.entries@.subrange(0, i + 1).drop_last() =~= self.entries@.subrange(
                0,
                i as int,
            ));
            let e = &self.entries[i];
            if e.selection == selection && !self.atoms.is_side_effect_target(e.target)
                && !is_meta_target(&self.atoms, e.target) {
                add_new_atom(&mut targets, e.target);
            }
            i = i + 1;
        }
        assert(self.entries@.subrange(0, i as int) =~= self.entries@);
        add_new_atom(&mut targets, self.atoms.protocol.multiple);
        add_new_atom(&mut targets, self.atoms.protocol.save_targets);
        add_new_atom(&mut targets, self.atoms.protocol.targets);
        add_new_atom(&mut targets, self.atoms.protocol.target_sizes);
        proof {
            lemma_target_list(self.entries@, selection, self.atoms);
        }
        targets
    }

    /// The size of the value under `(selection, target)`.
    pub fn get_target_size(&self, selection: Atom, target: Atom) -> (r: Option<TargetSize>)
        ensures
            match lookup(self.entries@, selection, target) {
                Some(e) => r == Some(TargetSize { target, size: entry_size(e, self.atoms) }),
                None => r is None,
            },
    {
        match self.get(selection, target) {
            Some(data) => {
                let size: i32 = if self.atoms.is_side_effect_target(data.format) {
                    -1
                } else {
                    #[verifier::truncate] (data.size() as i32)
                };
                Some(TargetSize::new(target, size))
            },
            None => None,
        }
    }

    /// The sizes that TARGET_SIZES lists for `selection`: one per value, then MULTIPLE (0),
    /// SAVE_TARGETS (-1), TARGETS and TARGET_SIZES (four and eight bytes per entry before
    /// them).
    pub fn get_target_sizes(&self, selection: Atom) -> (r: Vec<TargetSize>)
        requires
            self.entries@.len() <= 268_435_452,
        ensures
            ({
                let sizes = entry_sizes(self.entries@, selection, self.atoms);
                let n = sizes.len();
                r@ == sizes + seq![
                    TargetSize { target: self.atoms.protocol.multiple, size: 0 },
                    TargetSize { target: self.atoms.protocol.save_targets, size: -1i32 },
                    TargetSize {
                        target: self.atoms.protocol.targets,
                        size: ((n + 2) * 4) as i32,
                    },
                    TargetSize {
                        target: self.atoms.protocol.target_sizes,
                        size: ((n + 3) * 8) as i32,
                    },
                ]
            }),
    {
        let mut sizes: Vec<TargetSize> = Vec::new();
        let mut i: usize = 0;
        while i < self.entries.len()
            invariant
                i <= self.entries@.len(),
                self.entries@.len() <= 268_435_452,
                sizes@ == entry_sizes(self.entries@.subrange(0, i as int), selection, self.atoms),
                sizes@.len() <= i,
            decreases self.entries@.len() - i,
        {
            assert(self.entries@.subrange(0, i + 1).drop_last() =~= self.entries@.subrange(
                0,
                i as int,
            ));
            let e = &self.entries[i];
            if e.selection == selection {
                let size: i32 = if self.atoms.is_side_effect_target(e.data.format) {
                    -1
                } else {
                    #[verifier::truncate] (e.data.size() as i32)
                };
                sizes.push(TargetSize::new(e.target, size));
            }
            i = i + 1;
        }
        assert(self.entries@.subrange(0, i as int) =~= self.entries@);
        let ghost base = sizes@;
        sizes.push(TargetSize::new(self.atoms.protocol.multiple, 0));
        sizes.push(TargetSize::new(self.atoms.protocol.save_targets, -1));
        let targets_size = (sizes.len() * 4) as i32;
        sizes.push(TargetSize::new(self.atoms.protocol.targets, targets_size));
        let sizes_size = (sizes.len() * 8) as i32;
        sizes.push(TargetSize::new(self.atoms.protocol.target_sizes, sizes_size));
        assert(sizes@ =~= base + seq![
            TargetSize { target: self.atoms.protocol.multiple, size: 0 },
            TargetSize { target: self.atoms.protocol.save_targets, size: -1i32 },
            TargetSize {
                target: self.atoms.protocol.targets,
                size: ((base.len() + 2) * 4) as i32,
            },
            TargetSize {
                target: self.atoms.protocol.target_sizes,
                size: ((base.len() + 3) * 8) as i32,
            },
        ]);
        sizes
    }
}

/// The window that owns the selections this client sets and receives those it reads, and the
/// property that transfers land in.
#[derive(Debug, Clone, Copy, PartialEq, Eq, Structural)]
pub struct AtomHandle {
    pub window: Window,
    pub marker: Atom,
}

impl AtomHandle {
    pub fn new(window: Window, marker: Atom) -> (r: AtomHandle)
        ensures
            r == (AtomHandle { window, marker }),
    {
        AtomHandle { window, marker }
    }

    pub fn window(&self) -> (r: &Window)
        ensures
            *r == self.window,
    {
        &self.window
    }

    pub fn window_id(&self) -> (r: u32)
        ensures
            r == self.window.id,
    {
        self.window.id
    }

    pub fn marker(&self) -> (r: Atom)
        ensures
            r == self.marker,
    {
        self.marker
    }
}

/// Where the handover of the clipboard to a manager stands.
#[derive(Debug, Clone, Copy, PartialEq, Eq, Structural)]
pub enum HandoverState {
    Idle,
    InProgress,
    Completed,
}

/// The handover state, with the two signals that complete it: the manager fetched the data
/// (`written`) and acknowledged the save (`notified`).
#[derive(Debug, Clone, Copy, PartialEq, Eq, Structural)]
pub struct HandoverStatus {
    pub state: HandoverState,
    pub written: bool,
    pub notified: bool,
}

impl HandoverStatus {
    pub open spec fn new_spec() -> HandoverStatus {
        HandoverStatus { state: HandoverState::Idle, written: false, notified: false }
    }

    pub fn new() -> (r: HandoverStatus)
        ensures
            r == HandoverStatus::new_spec(),
    {
        HandoverStatus { state: HandoverState::Idle, written: false, notified: false }
    }

    pub fn is_completed(&self) -> (r: bool)
        ensures
            r == (self.state == HandoverState::Completed),
    {
        self.state == HandoverState::Completed
    }

    pub fn is_in_progress(&self) -> (r: bool)
        ensures
            r == (self.state == HandoverState::InProgress),
    {
        self.state == HandoverState::InProgress
    }

    /// Starts a handover.
    pub fn set_in_progress(&mut self)
        ensures
            *final(self) == (HandoverStatus { state: HandoverState::InProgress, ..*old(self) }),
    {
        self.state = HandoverState::InProgress;
    }

    /// Records the signals seen; with both seen the handover is complete. Returns whether it
    /// completed now, so that waiters can be woken.
    pub fn update(&mut self, written: bool, notified: bool) -> (r: bool)
        ensures
            final(self).written == (old(self).written || written),
            final(self).notified == (old(self).notified || notified),
            final(self).state == if final(self).written && final(self).notified {
                HandoverState::Completed
            } else {
                old(self).state
            },
            r == (final(self).written && final(self).notified),
    {
        if written {
            self.written = true;
        }
        if notified {
            self.notified = true;
        }
        if self.written && self.notified {
            self.state = HandoverState::Completed;
            true
        } else {
            false
        }
    }

    /// The status, once a signal has been seen or the handover completed.
    pub fn check(&self) -> (r: Option<HandoverStatus>)
        ensures
            r == if self.state == HandoverState::Completed || self.written || self.notified {
                Some(*self)
            } else {
                None
            },
    {
        if self.is_completed() || self.written || self.notified {
            Some(*self)
        } else {
            None
        }
    }
}

} // verus!
