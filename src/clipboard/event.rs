//! The decisions of the clipboard's event thread: what to answer a selection request, how a
//! read proceeds, how INCR transfers advance, and the handover to a clipboard manager.

use vstd::prelude::*;
use vstd::slice::slice_subrange;

use crate::clipboard::atoms::Atoms;
use crate::clipboard::model::{
    HandoverState, last_of_format, lookup, target_list, same_data, AtomHandle, Cache, CacheEntry, ClipboardData, HandoverStatus,
};
use crate::display::request::{put_u32, u32_bytes, ByteOrder};
use crate::display::Atom;
use crate::proto::{Event, EventMask, PropertyState, ReplyKind, Request};
use crate::display::request::ChangeWindowAttributes;
use crate::proto::Opcode;
use crate::window::{
    change_property_bytes, event_bits, send_event_bytes, PropFormat, PropMode, Window,
    MAX_PROPERTY_LEN,
};

verus! {

/// Values up to this size go in one property; larger ones go by INCR.
pub const MAX_REGULAR_SIZE: usize = 65536;

/// The size of one INCR chunk.
pub const INCR_CHUNK_SIZE: usize = 4096;

/// A read of a selection in progress.
pub struct TransferState {
    pub data: Vec<u8>,
    pub format: Atom,
    pub completed: bool,
    pub failed: bool,
    pub incr: bool,
}

impl TransferState {
    pub fn empty(format: Atom) -> (r: TransferState)
        ensures
            r.data@.len() == 0,
            r.format == format,
            !r.completed,
            !r.failed,
            !r.incr,
    {
        TransferState { data: Vec::new(), format, completed: false, failed: false, incr: false }
    }
}

/// A read of `(selection, target)`.
pub struct Transfer {
    pub selection: Atom,
    pub target: Atom,
    pub state: TransferState,
}

/// A value being sent by INCR: the bytes before `offset` are already written.
pub struct Outgoing {
    pub requestor: u32,
    pub property: Atom,
    pub format: Atom,
    pub data: Vec<u8>,
    pub offset: usize,
}

/// The first step of a read.
pub enum ReadStep {
    /// This client owns the selection and holds the value.
    Cached(ClipboardData),
    /// Nobody owns the selection.
    Unowned,
    /// The owner is asked to convert; the answer comes as a SelectionNotify.
    Convert(Request),
}

/// The bytes of a list of atoms.
pub open spec fn atoms_bytes(order: ByteOrder, s: Seq<Atom>) -> Seq<u8>
    decreases s.len(),
{
    if s.len() == 0 {
        Seq::empty()
    } else {
        atoms_bytes(order, s.drop_last()) + u32_bytes(order, s.last().id)
    }
}

/// Writes a list of atoms.
pub fn encode_atoms(order: ByteOrder, atoms: &[Atom]) -> (r: Vec<u8>)
    ensures
        r@ == atoms_bytes(order, atoms@),
{
    let mut out: Vec<u8> = Vec::new();
    let mut i: usize = 0;
    while i < atoms.len()
        invariant
            i <= atoms@.len(),
            out@ == atoms_bytes(order, atoms@.subrange(0, i as int)),
        decreases atoms@.len() - i,
    {
        assert(atoms@.subrange(0, i + 1).drop_last() =~= atoms@.subrange(0, i as int));
        put_u32(&mut out, order, atoms[i].id);
        i = i + 1;
    }
    assert(atoms@.subrange(0, i as int) =~= atoms@);
    out
}

/// The notice that tells a requestor where a conversion went (property 0: refused).
pub open spec fn notify_event(
    time: u32,
    requestor: u32,
    selection: Atom,
    target: Atom,
    property: Atom,
) -> Event {
    Event::SelectionNotify { time, requestor, selection, target, property }
}

/// The end of the INCR chunk that starts at `offset`.
pub open spec fn chunk_end(len: int, offset: int) -> int {
    if offset + INCR_CHUNK_SIZE < len {
        offset + INCR_CHUNK_SIZE
    } else {
        len
    }
}

/// The chunks that INCR writes from `offset` on, ending with the empty one.
pub open spec fn incr_chunks(data: Seq<u8>, offset: int) -> Seq<Seq<u8>>
    decreases data.len() - offset,
{
    if offset >= data.len() || offset < 0 {
        seq![Seq::empty()]
    } else {
        seq![data.subrange(offset, chunk_end(data.len() as int, offset))] + incr_chunks(
            data,
            chunk_end(data.len() as int, offset),
        )
    }
}

/// The chunks of `s` one after another.
pub open spec fn joined(s: Seq<Seq<u8>>) -> Seq<u8>
    decreases s.len(),
{
    if s.len() == 0 {
        Seq::empty()
    } else {
        s[0] + joined(s.drop_first())
    }
}

/// The chunks that an INCR transfer writes, up to the empty chunk that ends it, are the value
/// from where the transfer stands: from offset 0, the whole value.
pub proof fn lemma_incr_complete(data: Seq<u8>, offset: int)
    requires
        0 <= offset <= data.len(),
    ensures
        joined(incr_chunks(data, offset)) == data.subrange(offset, data.len() as int),
        incr_chunks(data, offset).last().len() == 0,
    decreases data.len() - offset,
{
    let chunks = incr_chunks(data, offset);
    if offset >= data.len() {
        assert(chunks.drop_first() =~= Seq::<Seq<u8>>::empty());
        assert(joined(chunks.drop_first()) == Seq::<u8>::empty());
        assert(chunks[0] == Seq::<u8>::empty());
        assert(joined(chunks) =~= data.subrange(offset, data.len() as int));
    } else {
        let end = chunk_end(data.len() as int, offset);
        lemma_incr_complete(data, end);
        assert(chunks.drop_first() =~= incr_chunks(data, end));
        assert(data.subrange(offset, end) + data.subrange(end, data.len() as int) =~= data.subrange(
            offset,
            data.len() as int,
        ));
    }
}

/// Whether `k` is the first read of `(selection, target)` in `s`.
pub open spec fn first_transfer(s: Seq<Transfer>, selection: Atom, target: Atom, k: int) -> bool {
    &&& 0 <= k < s.len()
    &&& s[k].selection == selection
    &&& s[k].target == target
    &&& forall|j: int| 0 <= j < k ==> !(s[j].selection == selection && s[j].target == target)
}

/// The handover status after the signals `written` and `notified`: seen only while a handover
/// is in progress, and completing it once both are seen.
pub open spec fn handover_signal(h: HandoverStatus, written: bool, notified: bool) -> HandoverStatus {
    if h.state == HandoverState::InProgress && (written || notified) {
        let w = h.written || written;
        let n = h.notified || notified;
        HandoverStatus {
            state: if w && n {
                HandoverState::Completed
            } else {
                h.state
            },
            written: w,
            notified: n,
        }
    } else {
        h
    }
}

/// The handover status after a SelectionNotify: one for the clipboard manager is its
/// acknowledgement.
pub open spec fn manager_notified(h: HandoverStatus, for_manager: bool) -> HandoverStatus {
    handover_signal(h, false, for_manager)
}

/// A handover in progress completes once the manager has both fetched the data and
/// acknowledged the save, in either order; a handover that is not in progress is left alone.
pub proof fn lemma_handover_completes(h: HandoverStatus)
    ensures
        h.state == HandoverState::InProgress ==> handover_signal(
            handover_signal(h, true, false),
            false,
            true,
        ).state == HandoverState::Completed,
        h.state == HandoverState::InProgress ==> handover_signal(
            handover_signal(h, false, true),
            true,
            false,
        ).state == HandoverState::Completed,
        h.state != HandoverState::InProgress ==> handover_signal(h, true, true) == h,
{
}

/// The bytes that an incremental read holds after it has appended `chunks` to `acc`, one
/// after another, as `handle_property` does for each chunk.
pub open spec fn appended(acc: Seq<u8>, chunks: Seq<Seq<u8>>) -> Seq<u8>
    decreases chunks.len(),
{
    if chunks.len() == 0 {
        acc
    } else {
        appended(acc + chunks[0], chunks.drop_first())
    }
}

/// An incremental read that starts empty and appends each chunk that `incr_send` writes, up
/// to the empty one, ends up holding the whole value.
pub proof fn lemma_incr_received(data: Seq<u8>)
    ensures
        appended(Seq::empty(), incr_chunks(data, 0)) == data,
{
    lemma_incr_complete(data, 0);
    lemma_appended(Seq::empty(), incr_chunks(data, 0));
    assert(Seq::<u8>::empty() + joined(incr_chunks(data, 0)) =~= data);
}

proof fn lemma_appended(acc: Seq<u8>, chunks: Seq<Seq<u8>>)
    ensures
        appended(acc, chunks) == acc + joined(chunks),
    decreases chunks.len(),
{
    if chunks.len() > 0 {
        lemma_appended(acc + chunks[0], chunks.drop_first());
        assert(acc + chunks[0] + joined(chunks.drop_first()) =~= acc + joined(chunks));
    } else {
        assert(acc + joined(chunks) =~= acc);
    }
}

/// The clipboard state that the event thread drives: the cache of owned selections, the reads
/// and INCR sends in progress, and the handover status.
pub struct EventHandler {
    pub atoms: Atoms,
    pub handle: AtomHandle,
    pub cache: Cache,
    pub transfers: Vec<Transfer>,
    pub outgoing: Vec<Outgoing>,
    pub handover: HandoverStatus,
}

impl EventHandler {
    pub fn new(atoms: Atoms, handle: AtomHandle) -> (r: EventHandler)
        ensures
            r.atoms == atoms,
            r.handle == handle,
            r.cache.atoms == atoms,
            r.cache.entries@.len() == 0,
            r.transfers@.len() == 0,
            r.outgoing@.len() == 0,
            r.handover == HandoverStatus::new_spec(),
    {
        EventHandler {
            atoms,
            handle,
            cache: Cache::new(atoms),
            transfers: Vec::new(),
            outgoing: Vec::new(),
            handover: HandoverStatus::new(),
        }
    }

    pub fn get(&self, selection: Atom, target: Atom) -> (r: Option<ClipboardData>)
        ensures
            match lookup(self.cache.entries@, selection, target) {
                Some(e) => r is Some && same_data(r->0, e.data),
                None => r is None,
            },
    {
        self.cache.get(selection, target)
    }

    pub fn is_empty(&self, selection: Atom) -> (r: bool)
        ensures
            r == forall|t: Atom| #[trigger] lookup(self.cache.entries@, selection, t) is None,
    {
        self.cache.is_empty(selection)
    }

    pub fn set(&mut self, selection: Atom, target: Atom, data: ClipboardData)
        ensures
            final(self).transfers == old(self).transfers,
            final(self).outgoing == old(self).outgoing,
            final(self).handover == old(self).handover,
            final(self).atoms == old(self).atoms,
            final(self).handle == old(self).handle,
            final(self).cache.atoms == old(self).cache.atoms,
            forall|s2: Atom, t2: Atom|
                #![trigger lookup(final(self).cache.entries@, s2, t2)]
                lookup(final(self).cache.entries@, s2, t2) == if s2 == selection && t2 == target {
                    Some(CacheEntry { selection, target, data })
                } else {
                    lookup(old(self).cache.entries@, s2, t2)
                },
    {
        self.cache.set(selection, target, data);
    }

    /// Stores the list of targets that TARGETS reports for `selection`.
    pub fn set_targets(&mut self, selection: Atom, targets: &[Atom])
        ensures
            final(self).transfers == old(self).transfers,
            final(self).outgoing == old(self).outgoing,
            final(self).handover == old(self).handover,
            final(self).atoms == old(self).atoms,
            final(self).handle == old(self).handle,
            final(self).cache.atoms == old(self).cache.atoms,
            match lookup(final(self).cache.entries@, selection, old(self).atoms.protocol.targets) {
                Some(e) => e.data.bytes@ == atoms_bytes(old(self).handle.window.order, targets@)
                    && e.data.format == old(self).atoms.protocol.targets && e.data.timestamp == 0,
                None => false,
            },
            forall|s2: Atom, t2: Atom|
                #![trigger lookup(final(self).cache.entries@, s2, t2)]
                !(s2 == selection && t2 == old(self).atoms.protocol.targets) ==> lookup(
                    final(self).cache.entries@,
                    s2,
                    t2,
                ) == lookup(old(self).cache.entries@, s2, t2),
    {
        let bytes = encode_atoms(self.handle.window.order, targets);
        let data = ClipboardData::new(bytes, self.atoms.protocol.targets, 0);
        self.cache.set(selection, self.atoms.protocol.targets, data);
    }

    /// Drops the values of `selection`.
    pub fn clear(&mut self, selection: Atom)
        ensures
            final(self).transfers == old(self).transfers,
            final(self).outgoing == old(self).outgoing,
            final(self).handover == old(self).handover,
            final(self).atoms == old(self).atoms,
            final(self).handle == old(self).handle,
            forall|s2: Atom, t2: Atom|
                #![trigger lookup(final(self).cache.entries@, s2, t2)]
                lookup(final(self).cache.entries@, s2, t2) == if s2 == selection {
                    None
                } else {
                    lookup(old(self).cache.entries@, s2, t2)
                },
    {
        self.cache.clear_selection(selection);
    }

    /// Another client took `selection`: its values are no longer ours to hand out.
    pub fn handle_selection_clear(&mut self, selection: Atom)
        ensures
            final(self).transfers == old(self).transfers,
            final(self).outgoing == old(self).outgoing,
            final(self).handover == old(self).handover,
            final(self).atoms == old(self).atoms,
            final(self).handle == old(self).handle,
            forall|t: Atom| #[trigger] lookup(final(self).cache.entries@, selection, t) is None,
            forall|s2: Atom, t2: Atom|
                #![trigger lookup(final(self).cache.entries@, s2, t2)]
                s2 != selection ==> lookup(final(self).cache.entries@, s2, t2) == lookup(
                    old(self).cache.entries@,
                    s2,
                    t2,
                ),
    {
        self.cache.clear_selection(selection);
    }

    /// Records the handover signals; returns whether the handover completed.
    pub fn update_handover_status(&mut self, written: bool, notified: bool) -> (r: bool)
        ensures
            final(self).handover.written == (old(self).handover.written || written),
            final(self).handover.notified == (old(self).handover.notified || notified),
            final(self).handover.state == if final(self).handover.written
                && final(self).handover.notified {
                crate::clipboard::model::HandoverState::Completed
            } else {
                old(self).handover.state
            },
            r == (final(self).handover.written && final(self).handover.notified),
            final(self).atoms == old(self).atoms,
            final(self).handle == old(self).handle,
    {
        self.handover.update(written, notified)
    }

    pub fn set_in_progress(&mut self)
        ensures
            final(self).handover.state == crate::clipboard::model::HandoverState::InProgress,
            final(self).handover.written == old(self).handover.written,
            final(self).handover.notified == old(self).handover.notified,
            final(self).atoms == old(self).atoms,
            final(self).handle == old(self).handle,
    {
        self.handover.set_in_progress();
    }

    /// The handover status, once a signal has been seen or the handover completed.
    pub fn check_handover_state(&self) -> (r: Option<HandoverStatus>)
        ensures
            r == if self.handover.state == crate::clipboard::model::HandoverState::Completed
                || self.handover.written || self.handover.notified {
                Some(self.handover)
            } else {
                None
            },
    {
        self.handover.check()
    }

    /// A SelectionNotify for the clipboard manager during a handover means that the manager
    /// acknowledged the save.
    pub fn handle_clipboard_manager_notify(&mut self, selection: Atom)
        ensures
            final(self).cache == old(self).cache,
            final(self).transfers == old(self).transfers,
            final(self).outgoing == old(self).outgoing,
            final(self).atoms == old(self).atoms,
            final(self).handle == old(self).handle,
            final(self).handover == manager_notified(
                old(self).handover,
                selection == old(self).atoms.selections.clipboard_manager,
            ),
    {
        if selection == self.atoms.selections.clipboard_manager && self.handover.is_in_progress() {
            self.handover.update(false, true);
        }
    }

    /// Sends one value to `requestor`: in one property up to `MAX_REGULAR_SIZE`, else by INCR,
    /// whose chunks follow as the requestor deletes the property. Returns the requests and
    /// the property that the notice names.
    pub fn send_data(
        &mut self,
        data: ClipboardData,
        requestor: &Window,
        property: Atom,
        target: Atom,
    ) -> (r: (Vec<Request>, Atom))
        ensures
            final(self).atoms == old(self).atoms,
            final(self).handle == old(self).handle,
            final(self).cache == old(self).cache,
            final(self).transfers == old(self).transfers,
            final(self).handover == old(self).handover,
            r.1 == if property.id == 0 {
                target
            } else {
                property
            },
            data.bytes@.len() <= MAX_REGULAR_SIZE ==> {
                &&& final(self).outgoing == old(self).outgoing
                &&& r.0@.len() == 1
                &&& r.0@[0].bytes@ == change_property_bytes(
                    requestor.order,
                    requestor.id,
                    r.1,
                    data.format,
                    PropFormat::Format8,
                    PropMode::Replace,
                    data.bytes@,
                )
            },
            data.bytes@.len() > MAX_REGULAR_SIZE ==> {
                &&& r.0@.len() == 2
                &&& r.0@[0].bytes@ == (ChangeWindowAttributes {
                    opcode: Opcode::CHANGE_WINDOW_ATTRIBUTES,
                    length: 4,
                    wid: requestor.id,
                    mask: 0x800,
                }).spec_encode(requestor.order) + u32_bytes(
                    requestor.order,
                    event_bits(seq![EventMask::PropertyChange]),
                )
                &&& r.0@[1].bytes@ == change_property_bytes(
                    requestor.order,
                    requestor.id,
                    r.1,
                    old(self).atoms.protocol.incr,
                    PropFormat::Format32,
                    PropMode::Replace,
                    u32_bytes(requestor.order, data.bytes@.len() as u32),
                )
                &&& final(self).outgoing@.len() == old(self).outgoing@.len() + 1
                &&& forall|k: int|
                    0 <= k < old(self).outgoing@.len() ==> final(self).outgoing@[k] == old(
                        self,
                    ).outgoing@[k]
                &&& final(self).outgoing@.last().requestor == requestor.id
                &&& final(self).outgoing@.last().property == r.1
                &&& final(self).outgoing@.last().format == data.format
                &&& final(self).outgoing@.last().data@ == data.bytes@
                &&& final(self).outgoing@.last().offset == 0
            },
    {
        let actual = if property.is_null() {
            target
        } else {
            property
        };
        let mut plan: Vec<Request> = Vec::new();
        if data.size() > MAX_REGULAR_SIZE {
            let masks = [EventMask::PropertyChange];
            assert(masks@ =~= seq![EventMask::PropertyChange]);
            plan.push(requestor.select_input(masks.as_slice()));
            let mut size: Vec<u8> = Vec::new();
            put_u32(&mut size, requestor.order, #[verifier::truncate] (data.size() as u32));
            plan.push(
                requestor.change_property(
                    actual,
                    self.atoms.protocol.incr,
                    PropFormat::Format32,
                    PropMode::Replace,
                    size.as_slice(),
                ),
            );
            self.outgoing.push(
                Outgoing {
                    requestor: requestor.id,
                    property: actual,
                    format: data.format,
                    data: data.bytes,
                    offset: 0,
                },
            );
        } else {
            plan.push(
                requestor.change_property(
                    actual,
                    data.format,
                    PropFormat::Format8,
                    PropMode::Replace,
                    data.bytes(),
                ),
            );
        }
        (plan, actual)
    }

    /// Answers a request to convert `selection` to `target` into `property` of the window
    /// `requestor`: TARGETS lists the targets, a cached value is sent, anything else is
    /// refused; a notice always follows. During a handover, a request for data means that the
    /// manager is fetching it.
    pub fn handle_selection_request(
        &mut self,
        selection: Atom,
        target: Atom,
        property: Atom,
        requestor: u32,
        time: u32,
    ) -> (r: Vec<Request>)
        ensures
            ({
                let order = old(self).handle.window.order;
                let found = lookup(old(self).cache.entries@, selection, target);
                &&& final(self).atoms == old(self).atoms
                &&& final(self).handle == old(self).handle
                &&& final(self).cache == old(self).cache
                &&& r@.len() >= 1
                &&& (target != old(self).atoms.protocol.targets && found is None) ==> r@.len() == 1
                    && r@[0].bytes@ == send_event_bytes(
                    order,
                    requestor,
                    notify_event(time, requestor, selection, target, Atom { id: 0 }),
                    0,
                    false,
                )
                &&& (target != old(self).atoms.protocol.targets && found is Some) ==> {
                    let value = found->0.data;
                    let answered = if property.id == 0 {
                        target
                    } else {
                        property
                    };
                    &&& value.bytes@.len() <= MAX_REGULAR_SIZE ==> r@.len() == 2 && r@[0].bytes@
                        == change_property_bytes(
                        order,
                        requestor,
                        answered,
                        value.format,
                        PropFormat::Format8,
                        PropMode::Replace,
                        value.bytes@,
                    )
                    &&& r@.last().bytes@ == send_event_bytes(
                        order,
                        requestor,
                        notify_event(time, requestor, selection, target, answered),
                        0,
                        false,
                    )
                }
                &&& target == old(self).atoms.protocol.targets ==> {
                    let listed = atoms_bytes(
                        order,
                        target_list(old(self).cache.entries@, selection, old(self).cache.atoms),
                    );
                    &&& listed.len() <= MAX_PROPERTY_LEN ==> r@.len() == 2 && r@[0].bytes@
                        == change_property_bytes(
                        order,
                        requestor,
                        property,
                        old(self).atoms.protocol.atom,
                        PropFormat::Format32,
                        PropMode::Replace,
                        listed,
                    ) && r@[1].bytes@ == send_event_bytes(
                        order,
                        requestor,
                        notify_event(time, requestor, selection, target, property),
                        0,
                        false,
                    )
                    &&& listed.len() > MAX_PROPERTY_LEN ==> r@.len() == 1 && r@[0].bytes@
                        == send_event_bytes(
                        order,
                        requestor,
                        notify_event(time, requestor, selection, target, Atom { id: 0 }),
                        0,
                        false,
                    )
                }
                &&& (target != old(self).atoms.protocol.targets && found is Some
                    && found->0.data.bytes@.len() > MAX_REGULAR_SIZE) ==> r@.len() == 3 && r@[1].bytes@
                    == change_property_bytes(
                    order,
                    requestor,
                    if property.id == 0 {
                        target
                    } else {
                        property
                    },
                    old(self).atoms.protocol.incr,
                    PropFormat::Format32,
                    PropMode::Replace,
                    u32_bytes(order, found->0.data.bytes@.len() as u32),
                )
                &&& final(self).handover == handover_signal(
                    old(self).handover,
                    target != old(self).atoms.protocol.targets,
                    false,
                )
                &&& final(self).transfers == old(self).transfers
                &&& (target != old(self).atoms.protocol.targets && found is Some
                    && found->0.data.bytes@.len() > MAX_REGULAR_SIZE) ==> {
                    &&& final(self).outgoing@.len() == old(self).outgoing@.len() + 1
                    &&& forall|k: int|
                        0 <= k < old(self).outgoing@.len() ==> final(self).outgoing@[k] == old(
                            self,
                        ).outgoing@[k]
                    &&& final(self).outgoing@.last().requestor == requestor
                    &&& final(self).outgoing@.last().property == if property.id == 0 {
                        target
                    } else {
                        property
                    }
                    &&& final(self).outgoing@.last().format == found->0.data.format
                    &&& final(self).outgoing@.last().data@ == found->0.data.bytes@
                    &&& final(self).outgoing@.last().offset == 0
                }
                &&& !(target != old(self).atoms.protocol.targets && found is Some
                    && found->0.data.bytes@.len() > MAX_REGULAR_SIZE) ==> final(self).outgoing
                    == old(self).outgoing
            }),
    {
        let order = self.handle.window.order;
        let window = Window::new(order, self.handle.window.visual, 0, requestor);
        let mut plan: Vec<Request> = Vec::new();
        let answered: Atom;
        if target == self.atoms.protocol.targets {
            let targets = self.cache.get_targets(selection);
            let bytes = encode_atoms(order, targets.as_slice());
            if bytes.len() <= MAX_PROPERTY_LEN {
                plan.push(
                    window.change_property(
                        property,
                        self.atoms.protocol.atom,
                        PropFormat::Format32,
                        PropMode::Replace,
                        bytes.as_slice(),
                    ),
                );
                answered = property;
            } else {
                answered = Atom::new(0);
            }
        } else {
            match self.cache.get(selection, target) {
                Some(data) => {
                    let (mut requests, actual) = self.send_data(data, &window, property, target);
                    plan.append(&mut requests);
                    answered = actual;
                },
                None => {
                    answered = Atom::new(0);
                },
            }
        }
        let notify = Event::SelectionNotify {
            time,
            requestor,
            selection,
            target,
            property: answered,
        };
        plan.push(window.send_event(&notify, &[], false));
        if target != self.atoms.protocol.targets && self.handover.is_in_progress() {
            self.handover.update(true, false);
        }
        plan
    }

    /// Writes the next INCR chunk after the requestor deleted the property, or the empty chunk
    /// that ends the transfer once everything is written.
    pub fn incr_send(&mut self, window: u32, atom: Atom, state: PropertyState) -> (r: Option<
        Request,
    >)
        ensures
            final(self).atoms == old(self).atoms,
            final(self).handle == old(self).handle,
            final(self).cache == old(self).cache,
            state != PropertyState::Deleted ==> r is None,
            r is None ==> final(self).outgoing == old(self).outgoing,
            state == PropertyState::Deleted && (exists|i: int|
                0 <= i < old(self).outgoing@.len() && #[trigger] old(self).outgoing@[i].requestor
                    == window && old(self).outgoing@[i].property == atom) ==> r is Some,
            r is Some ==> exists|i: int|
                {
                    &&& 0 <= i < old(self).outgoing@.len()
                    &&& #[trigger] old(self).outgoing@[i].requestor == window
                    &&& old(self).outgoing@[i].property == atom
                    &&& forall|j: int|
                        0 <= j < i ==> !(old(self).outgoing@[j].requestor == window && old(
                            self,
                        ).outgoing@[j].property == atom)
                    &&& ({
                        let o = old(self).outgoing@[i];
                        let len = o.data@.len() as int;
                        let end = chunk_end(len, o.offset as int);
                        &&& r->0.bytes@ == change_property_bytes(
                            old(self).handle.window.order,
                            window,
                            atom,
                            o.format,
                            PropFormat::Format8,
                            PropMode::Replace,
                            if o.offset >= len {
                                Seq::empty()
                            } else {
                                o.data@.subrange(o.offset as int, end)
                            },
                        )
                        &&& o.offset >= len ==> final(self).outgoing@ == old(
                            self,
                        ).outgoing@.remove(i)
                        &&& o.offset < len ==> final(self).outgoing@.drop_last() == old(
                            self,
                        ).outgoing@.remove(i) && final(self).outgoing@.last().offset == end
                            && final(self).outgoing@.last().data@ == o.data@
                            && final(self).outgoing@.last().requestor == window
                            && final(self).outgoing@.last().property == atom
                            && final(self).outgoing@.last().format == o.format
                    })
                },
    {
        if state != PropertyState::Deleted {
            return None;
        }
        let mut i: usize = 0;
        while i < self.outgoing.len()
            invariant
                state == PropertyState::Deleted,
                i <= self.outgoing@.len(),
                forall|j: int|
                    0 <= j < i ==> !(#[trigger] self.outgoing@[j].requestor == window
                        && self.outgoing@[j].property == atom),
                self.outgoing == old(self).outgoing,
                self.atoms == old(self).atoms,
                self.handle == old(self).handle,
                self.cache == old(self).cache,
            decreases self.outgoing@.len() - i,
        {
            if self.outgoing[i].requestor == window && self.outgoing[i].property == atom {
                let order = self.handle.window.order;
                let target = Window::new(order, self.handle.window.visual, 0, window);
                let mut o = self.outgoing.remove(i);
                let len = o.data.len();
                if o.offset >= len {
                    let empty: Vec<u8> = Vec::new();
                    let request = target.change_property(
                        atom,
                        o.format,
                        PropFormat::Format8,
                        PropMode::Replace,
                        empty.as_slice(),
                    );
                    return Some(request);
                }
                let end = if len - o.offset > INCR_CHUNK_SIZE {
                    o.offset + INCR_CHUNK_SIZE
                } else {
                    len
                };
                let request = target.change_property(
                    atom,
                    o.format,
                    PropFormat::Format8,
                    PropMode::Replace,
                    slice_subrange(o.data.as_slice(), o.offset, end),
                );
                o.offset = end;
                self.outgoing.push(o);
                return Some(request);
            }
            i = i + 1;
        }
        None
    }

    /// The position of the read of `(selection, target)`, if one is in progress.
    pub fn find_transfer(&self, selection: Atom, target: Atom) -> (r: Option<usize>)
        ensures
            match r {
                Some(i) => first_transfer(self.transfers@, selection, target, i as int),
                None => forall|k: int|
                    0 <= k < self.transfers@.len() ==> !(self.transfers@[k].selection == selection
                        && self.transfers@[k].target == target),
            },
    {
        let mut i: usize = 0;
        while i < self.transfers.len()
            invariant
                i <= self.transfers@.len(),
                forall|k: int|
                    0 <= k < i ==> !(self.transfers@[k].selection == selection
                        && self.transfers@[k].target == target),
            decreases self.transfers@.len() - i,
        {
            if self.transfers[i].selection == selection && self.transfers[i].target == target {
                return Some(i);
            }
            i = i + 1;
        }
        None
    }

    /// The first step of reading `selection` as `target`, given its owner: our own value
    /// straight from the cache, nothing without an owner, else a conversion into our marker
    /// property, with a fresh read registered.
    pub fn read(&mut self, selection: Atom, target: Atom, owner: Option<u32>) -> (r: ReadStep)
        ensures
            final(self).atoms == old(self).atoms,
            final(self).handle == old(self).handle,
            final(self).cache == old(self).cache,
            owner is None ==> r is Unowned && final(self).transfers == old(self).transfers,
            owner == Some(old(self).handle.window.id) && lookup(
                old(self).cache.entries@,
                selection,
                target,
            ) is Some ==> match r {
                ReadStep::Cached(d) => same_data(
                    d,
                    lookup(old(self).cache.entries@, selection, target)->0.data,
                ),
                _ => false,
            },
            r is Convert ==> {
                &&& owner is Some
                &&& r->Convert_0.bytes@ == (crate::display::request::ConvertSelection {
                    opcode: Opcode::CONVERT_SELECTION,
                    length: 6,
                    requestor: old(self).handle.window.id,
                    selection: selection.id,
                    target: target.id,
                    property: old(self).handle.marker.id,
                    time: 0,
                }).spec_encode(old(self).handle.window.order)
                &&& final(self).transfers@.last().selection == selection
                &&& final(self).transfers@.last().target == target
                &&& final(self).transfers@.last().state.data@.len() == 0
                &&& !final(self).transfers@.last().state.completed
                &&& !final(self).transfers@.last().state.incr
            },
            owner is Some && !(owner == Some(old(self).handle.window.id) && lookup(
                old(self).cache.entries@,
                selection,
                target,
            ) is Some) ==> r is Convert,
    {
        let owner = match owner {
            Some(o) => o,
            None => {
                return ReadStep::Unowned;
            },
        };
        if owner == self.handle.window.id {
            match self.cache.get(selection, target) {
                Some(data) => {
                    return ReadStep::Cached(data);
                },
                None => {},
            }
        }
        match self.find_transfer(selection, target) {
            Some(i) => {
                self.transfers.remove(i);
            },
            None => {},
        }
        self.transfers.push(
            Transfer { selection, target, state: TransferState::empty(target) },
        );
        let request = self.handle.window.convert_selection(selection, target, self.handle.marker);
        ReadStep::Convert(request)
    }

    /// Whether the read of `(selection, target)` has ended, with data or without.
    pub fn is_complete(&self, selection: Atom, target: Atom) -> (r: bool)
        ensures
            r == exists|k: int|
                first_transfer(self.transfers@, selection, target, k)
                    && self.transfers@[k].state.completed,
    {
        match self.find_transfer(selection, target) {
            Some(i) => {
                assert forall|k: int| first_transfer(self.transfers@, selection, target, k) implies k
                    == i by {
                    if k < i {
                    } else if k > i {
                    }
                }
                self.transfers[i].state.completed
            },
            None => false,
        }
    }

    /// Ends the read of `(selection, target)`: its value if it completed with data (and the
    /// value is cached), else nothing.
    pub fn finish_read(&mut self, selection: Atom, target: Atom) -> (r: Option<ClipboardData>)
        ensures
            final(self).atoms == old(self).atoms,
            final(self).handle == old(self).handle,
            (forall|k: int| !first_transfer(old(self).transfers@, selection, target, k)) ==> r is None
                && final(self).transfers == old(self).transfers,
            forall|k: int|
                #![trigger first_transfer(old(self).transfers@, selection, target, k)]
                first_transfer(old(self).transfers@, selection, target, k) ==> {
                    let t = old(self).transfers@[k].state;
                    &&& final(self).transfers@ == old(self).transfers@.remove(k)
                    &&& (t.completed && !t.failed) ==> r is Some && r->0.bytes@ == t.data@
                        && r->0.format == t.format && r->0.timestamp == 0 && match lookup(
                        final(self).cache.entries@,
                        selection,
                        target,
                    ) {
                        Some(e) => same_data(e.data, r->0),
                        None => false,
                    } && forall|s2: Atom, t2: Atom|
                        #![trigger lookup(final(self).cache.entries@, s2, t2)]
                        !(s2 == selection && t2 == target) ==> lookup(
                            final(self).cache.entries@,
                            s2,
                            t2,
                        ) == lookup(old(self).cache.entries@, s2, t2)
                    &&& !(t.completed && !t.failed) ==> final(self).cache == old(self).cache
                    &&& !(t.completed && !t.failed) ==> r is None
                },
            (forall|k: int| !first_transfer(old(self).transfers@, selection, target, k))
                ==> final(self).cache == old(self).cache,
    {
        match self.find_transfer(selection, target) {
            None => None,
            Some(i) => {
                let ghost before = self.transfers@;
                assert forall|k: int| first_transfer(before, selection, target, k) implies k
                    == i by {
                    if k < i {
                    } else if k > i {
                    }
                }
                let transfer = self.transfers.remove(i);
                if transfer.state.completed && !transfer.state.failed {
                    let data = ClipboardData::new(transfer.state.data, transfer.state.format, 0);
                    self.cache.set(selection, target, data.copy());
                    Some(data)
                } else {
                    None
                }
            },
        }
    }

    /// A conversion that we asked for was answered. For the clipboard manager during a
    /// handover, it is the acknowledgement. For a read in progress: property 0 means that the
    /// owner refused; else the value is fetched (and deleted) from our window.
    pub fn handle_selection_notify(
        &mut self,
        requestor: u32,
        selection: Atom,
        target: Atom,
        property: Atom,
        time: u32,
    ) -> (r: Option<Request>)
        ensures
            final(self).atoms == old(self).atoms,
            final(self).handle == old(self).handle,
            final(self).cache == old(self).cache,
            final(self).outgoing == old(self).outgoing,
            final(self).handover == manager_notified(
                old(self).handover,
                selection == old(self).atoms.selections.clipboard_manager,
            ),
            (forall|k: int| !first_transfer(old(self).transfers@, selection, target, k)) ==> r is None
                && final(self).transfers == old(self).transfers,
            property.id == 0 ==> r is None,
            property.id != 0 ==> final(self).transfers == old(self).transfers,
            property.id != 0 && (exists|k: int| first_transfer(old(self).transfers@, selection, target, k))
                ==> r is Some,
            property.id == 0 ==> forall|k: int|
                #![trigger first_transfer(old(self).transfers@, selection, target, k)]
                first_transfer(old(self).transfers@, selection, target, k) ==> {
                    let t = old(self).transfers@[k].state;
                    let n = final(self).transfers@.last();
                    &&& final(self).transfers@.drop_last() == old(self).transfers@.remove(k)
                    &&& n.selection == selection && n.target == target
                    &&& n.state.completed && n.state.failed
                    &&& n.state.data@ == t.data@ && n.state.incr == t.incr
                },
            r is Some ==> property.id != 0 && r->0.reply == Some(ReplyKind::GetProperty)
                && r->0.bytes@ == (crate::display::request::GetProperty {
                opcode: Opcode::GET_PROPERTY,
                delete: 1,
                length: 6,
                window: old(self).handle.window.id,
                property: property.id,
                type_: 0,
                long_offset: 0,
                long_length: 65535,
            }).spec_encode(old(self).handle.window.order),
    {
        self.handle_clipboard_manager_notify(selection);
        match self.find_transfer(selection, target) {
            None => None,
            Some(i) => {
                let ghost before = self.transfers@;
                assert forall|k: int| first_transfer(before, selection, target, k) implies k
                    == i by {
                    if k < i {
                    } else if k > i {
                    }
                }
                if property.is_null() {
                    let mut transfer = self.transfers.remove(i);
                    transfer.state.failed = true;
                    transfer.state.completed = true;
                    self.transfers.push(transfer);
                    None
                } else {
                    Some(self.handle.window.get_property(property, Atom::new(0), true))
                }
            },
        }
    }

    /// The value fetched for the read of `(selection, target)` (`None`: the property was
    /// gone). An INCR type starts an incremental read, whose chunks then follow until an empty
    /// one ends it; any other type is the whole value.
    pub fn handle_property(&mut self, selection: Atom, target: Atom, value: Option<(Vec<u8>, Atom)>)
        ensures
            final(self).atoms == old(self).atoms,
            final(self).handle == old(self).handle,
            final(self).cache == old(self).cache,
            (forall|k: int| !first_transfer(old(self).transfers@, selection, target, k))
                ==> final(self).transfers == old(self).transfers,
            forall|k: int|
                #![trigger first_transfer(old(self).transfers@, selection, target, k)]
                first_transfer(old(self).transfers@, selection, target, k) ==> {
                    let t = old(self).transfers@[k].state;
                    let n = final(self).transfers@.last().state;
                    &&& final(self).transfers@.drop_last() == old(self).transfers@.remove(k)
                    &&& final(self).transfers@.last().selection == selection
                    &&& final(self).transfers@.last().target == target
                    &&& match value {
                        None => if t.incr {
                            n == t
                        } else {
                            n.completed && n.failed
                        },
                        Some((bytes, type_)) => if t.incr {
                            if bytes@.len() == 0 {
                                n.completed && !n.failed && n.data@ == t.data@
                            } else {
                                n.data@ == t.data@ + bytes@ && n.completed == t.completed
                                    && n.incr
                            }
                        } else if type_ == old(self).atoms.protocol.incr {
                            n.incr && !n.completed && n.data@.len() == 0 && n.format == target
                        } else {
                            n.completed && !n.failed && n.data@ == bytes@ && n.format == type_
                        },
                    }
                },
    {
        let i = match self.find_transfer(selection, target) {
            None => {
                return;
            },
            Some(i) => i,
        };
        let ghost before = self.transfers@;
        assert forall|k: int| first_transfer(before, selection, target, k) implies k == i by {
            if k < i {
            } else if k > i {
            }
        }
        let mut transfer = self.transfers.remove(i);
        let ghost t0 = transfer.state;
        assert(t0 == before[i as int].state);
        match value {
            None => {
                if !transfer.state.incr {
                    transfer.state.completed = true;
                    transfer.state.failed = true;
                }
            },
            Some((bytes, type_)) => {
                if transfer.state.incr {
                    if bytes.len() == 0 {
                        transfer.state.completed = true;
                        transfer.state.failed = false;
                    } else {
                        let mut bytes = bytes;
                        transfer.state.data.append(&mut bytes);
                    }
                } else if type_ == self.atoms.protocol.incr {
                    transfer.state = TransferState::empty(target);
                    transfer.state.incr = true;
                } else {
                    transfer.state.data = bytes;
                    transfer.state.format = type_;
                    transfer.state.completed = true;
                    transfer.state.failed = false;
                }
            },
        }
        self.transfers.push(transfer);
        assert(self.transfers@.drop_last() =~= before.remove(i as int));
    }

    /// A new value in our marker property during an incremental read: the next chunk is
    /// fetched (and deleted, which asks the owner for the one after).
    pub fn incr_fetch(&self, window: u32, atom: Atom, state: PropertyState) -> (r: Option<
        (Atom, Atom, Request),
    >)
        ensures
            !(state == PropertyState::NewValue && window == self.handle.window.id && atom
                == self.handle.marker) ==> r is None,
            state == PropertyState::NewValue && window == self.handle.window.id && atom
                == self.handle.marker && (exists|k: int|
                0 <= k < self.transfers@.len() && #[trigger] self.transfers@[k].state.incr
                    && !self.transfers@[k].state.completed) ==> r is Some,
            r is Some ==> {
                let (selection, target, request) = r->0;
                &&& exists|k: int|
                    0 <= k < self.transfers@.len() && self.transfers@[k].selection == selection
                        && self.transfers@[k].target == target && self.transfers@[k].state.incr
                        && !self.transfers@[k].state.completed && forall|j: int|
                        0 <= j < k ==> !(self.transfers@[j].state.incr
                            && !self.transfers@[j].state.completed)
                &&& request.reply == Some(ReplyKind::GetProperty)
                &&& request.bytes@ == (crate::display::request::GetProperty {
                    opcode: Opcode::GET_PROPERTY,
                    delete: 1,
                    length: 6,
                    window: self.handle.window.id,
                    property: self.handle.marker.id,
                    type_: 0,
                    long_offset: 0,
                    long_length: 65535,
                }).spec_encode(self.handle.window.order)
            },
    {
        if !(state == PropertyState::NewValue && window == self.handle.window.id && atom
            == self.handle.marker) {
            return None;
        }
        let mut i: usize = 0;
        while i < self.transfers.len()
            invariant
                i <= self.transfers@.len(),
                state == PropertyState::NewValue && window == self.handle.window.id && atom
                    == self.handle.marker,
                forall|j: int|
                    0 <= j < i ==> !(#[trigger] self.transfers@[j].state.incr
                        && !self.transfers@[j].state.completed),
            decreases self.transfers@.len() - i,
        {
            let t = &self.transfers[i];
            if t.state.incr && !t.state.completed {
                let request = self.handle.window.get_property(self.handle.marker, Atom::new(0), true);
                return Some((t.selection, t.target, request));
            }
            i = i + 1;
        }
        None
    }

    /// Takes `selection` with the given values: each value is cached under its format (the
    /// later of two with one format), and TARGETS lists TARGETS, TIMESTAMP, MULTIPLE and the
    /// formats of the values. Returns the request that makes our window the owner.
    pub fn write(&mut self, selection: Atom, data: Vec<ClipboardData>) -> (r: Request)
        ensures
            final(self).atoms == old(self).atoms,
            final(self).handle == old(self).handle,
            final(self).transfers == old(self).transfers,
            final(self).outgoing == old(self).outgoing,
            final(self).handover == old(self).handover,
            final(self).cache.atoms == old(self).cache.atoms,
            r.reply is None,
            r.bytes@ == (crate::display::request::SetSelectionOwner {
                opcode: Opcode::SET_SELECTION_OWNER,
                length: 4,
                owner: old(self).handle.window.id,
                selection: selection.id,
                time: 0,
            }).spec_encode(old(self).handle.window.order),
            forall|t2: Atom|
                #![trigger lookup(final(self).cache.entries@, selection, t2)]
                last_of_format(data@, t2) is Some ==> lookup(
                    final(self).cache.entries@,
                    selection,
                    t2,
                ) == Some(
                    CacheEntry { selection, target: t2, data: last_of_format(data@, t2)->0 },
                ),
            last_of_format(data@, old(self).atoms.protocol.targets) is None ==> match lookup(
                final(self).cache.entries@,
                selection,
                old(self).atoms.protocol.targets,
            ) {
                Some(e) => e.data.bytes@ == atoms_bytes(
                    old(self).handle.window.order,
                    seq![
                        old(self).atoms.protocol.targets,
                        old(self).atoms.protocol.timestamp,
                        old(self).atoms.protocol.multiple,
                    ] + data@.map_values(|d: ClipboardData| d.format),
                ) && e.data.format == old(self).atoms.protocol.targets && e.data.timestamp == 0,
                None => false,
            },
            forall|s2: Atom, t2: Atom|
                #![trigger lookup(final(self).cache.entries@, s2, t2)]
                !(s2 == selection && (last_of_format(data@, t2) is Some || t2
                    == old(self).atoms.protocol.targets)) ==> lookup(
                    final(self).cache.entries@,
                    s2,
                    t2,
                ) == lookup(old(self).cache.entries@, s2, t2),
    {
        let mut targets: Vec<Atom> = vec![
            self.atoms.protocol.targets,
            self.atoms.protocol.timestamp,
            self.atoms.protocol.multiple,
        ];
        let ghost head = targets@;
        let mut i: usize = 0;
        while i < data.len()
            invariant
                i <= data@.len(),
                targets@ == head + data@.subrange(0, i as int).map_values(
                    |d: ClipboardData| d.format,
                ),
            decreases data@.len() - i,
        {
            targets.push(data[i].format);
            i = i + 1;
            assert(targets@ =~= head + data@.subrange(0, i as int).map_values(
                |d: ClipboardData| d.format,
            ));
        }
        assert(data@.subrange(0, i as int) =~= data@);
        self.set_targets(selection, targets.as_slice());
        self.cache.set_all(selection, data);
        self.handle.window.set_selection_owner(selection)
    }

    /// The request that starts the handover of the clipboard to a manager, if there is
    /// anything to hand over: we own CLIPBOARD and hold a value for it.
    pub fn handover_request(&mut self, is_owner: bool) -> (r: Option<Request>)
        ensures
            final(self).atoms == old(self).atoms,
            final(self).handle == old(self).handle,
            final(self).cache == old(self).cache,
            !is_owner ==> r is None && final(self).handover == old(self).handover,
            is_owner && (forall|t: Atom|
                #[trigger] lookup(
                    old(self).cache.entries@,
                    old(self).atoms.selections.clipboard,
                    t,
                ) is None) ==> r is None && final(self).handover == old(self).handover,
            r is Some ==> final(self).handover.state
                == crate::clipboard::model::HandoverState::InProgress && r->0.bytes@ == (
            crate::display::request::ConvertSelection {
                opcode: Opcode::CONVERT_SELECTION,
                length: 6,
                requestor: old(self).handle.window.id,
                selection: old(self).atoms.selections.clipboard_manager.id,
                target: old(self).atoms.protocol.save_targets.id,
                property: old(self).handle.marker.id,
                time: 0,
            }).spec_encode(old(self).handle.window.order),
            is_owner && !(forall|t: Atom|
                #[trigger] lookup(
                    old(self).cache.entries@,
                    old(self).atoms.selections.clipboard,
                    t,
                ) is None) ==> r is Some,
    {
        if !is_owner {
            return None;
        }
        if self.cache.is_empty(self.atoms.selections.clipboard) {
            return None;
        }
        let request = self.handle.window.convert_selection(
            self.atoms.selections.clipboard_manager,
            self.atoms.protocol.save_targets,
            self.handle.marker,
        );
        self.handover.set_in_progress();
        Some(request)
    }
}

} // verus!
