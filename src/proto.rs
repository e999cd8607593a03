//! Protocol constants, the typed events and replies, and the request router.

use vstd::prelude::*;

use crate::display::error::Error;

use crate::display::request::{
    put_bytes, put_u16, put_u32, put_u32s, put_zeros, u16s_bytes, u32_bytes, u32s_bytes, zeros,
    ByteOrder, GetGeometryResponse, GetInputFocusResponse, GetSelectionOwnerResponse,
    GetWindowAttributesResponse, GrabPointerResponse, InternAtomResponse, QueryExtensionResponse,
    QueryPointerResponse, XineramaIsActiveResponse, XineramaScreenInfo,
};
use crate::display::Atom;
use crate::keyboard::Keysym;
use crate::window::ConfigureValue;



verus! {

/// The codes of the records the server sends.
#[non_exhaustive]
pub struct Response;

impl Response {
    pub const ERROR: u8 = 0;
    pub const REPLY: u8 = 1;
    pub const KEY_PRESS: u8 = 2;
    pub const KEY_RELEASE: u8 = 3;
    pub const BUTTON_PRESS: u8 = 4;
    pub const BUTTON_RELEASE: u8 = 5;
    pub const MOTION_NOTIFY: u8 = 6;
    pub const ENTER_NOTIFY: u8 = 7;
    pub const FOCUS_IN: u8 = 9;
    pub const FOCUS_OUT: u8 = 10;
    pub const CREATE_NOTIFY: u8 = 16;
    pub const DESTROY_NOTIFY: u8 = 17;
    pub const UNMAP_NOTIFY: u8 = 18;
    pub const MAP_NOTIFY: u8 = 19;
    pub const MAP_REQUEST: u8 = 20;
    pub const REPARENT_NOTIFY: u8 = 21;
    pub const CONFIGURE_NOTIFY: u8 = 22;
    pub const CONFIGURE_REQUEST: u8 = 23;
    pub const GRAVITY_NOTIFY: u8 = 24;
    pub const CIRCULATE_NOTIFY: u8 = 26;
    pub const CIRCULATE_REQUEST: u8 = 27;
    pub const PROPERTY_NOTIFY: u8 = 28;
    pub const SELECTION_CLEAR: u8 = 29;
    pub const SELECTION_REQUEST: u8 = 30;
    pub const SELECTION_NOTIFY: u8 = 31;
    pub const CLIENT_MESSAGE: u8 = 33;
    pub const MAPPING_NOTIFY: u8 = 34;
}

/// The major opcodes of the core requests.
#[non_exhaustive]
pub struct Opcode;

impl Opcode {
    pub const CREATE_WINDOW: u8 = 1;
    pub const CHANGE_WINDOW_ATTRIBUTES: u8 = 2;
    pub const GET_WINDOW_ATTRIBUTES: u8 = 3;
    pub const DESTROY_WINDOW: u8 = 4;
    pub const DESTROY_SUBWINDOWS: u8 = 5;
    pub const REPARENT_WINDOW: u8 = 7;
    pub const MAP_WINDOW: u8 = 8;
    pub const MAP_SUBWINDOWS: u8 = 9;
    pub const UNMAP_WINDOW: u8 = 10;
    pub const UNMAP_SUBWINDOWS: u8 = 11;
    pub const CONFIGURE_WINDOW: u8 = 12;
    pub const GET_GEOMETRY: u8 = 14;
    pub const INTERN_ATOM: u8 = 16;
    pub const CHANGE_PROPERTY: u8 = 18;
    pub const DELETE_PROPERTY: u8 = 19;
    pub const GET_PROPERTY: u8 = 20;
    pub const SET_SELECTION_OWNER: u8 = 22;
    pub const GET_SELECTION_OWNER: u8 = 23;
    pub const CONVERT_SELECTION: u8 = 24;
    pub const SEND_EVENT: u8 = 25;
    pub const GRAB_POINTER: u8 = 26;
    pub const UNGRAB_POINTER: u8 = 27;
    pub const GRAB_BUTTON: u8 = 28;
    pub const UNGRAB_BUTTON: u8 = 29;
    pub const GRAB_KEY: u8 = 33;
    pub const QUERY_POINTER: u8 = 38;
    pub const SET_INPUT_FOCUS: u8 = 42;
    pub const GET_INPUT_FOCUS: u8 = 43;
    pub const QUERY_EXTENSION: u8 = 98;
    pub const GET_KEYBOARD_MAPPING: u8 = 101;
    pub const KILL_CLIENT: u8 = 113;
}

/// The class of an error record.
#[derive(Debug, Clone, Copy, PartialEq, Eq, Structural)]
pub enum ErrorCode {
    Request,
    Value,
    Window,
    Pixmap,
    Atom,
    Cursor,
    Font,
    Match,
    Drawable,
    Access,
    Alloc,
    Colormap,
    GContext,
    IdChoice,
    Name,
    Length,
    Implementation,
    Unknown,
}

pub open spec fn error_code_of(value: u8) -> ErrorCode {
    if value == 1 {
        ErrorCode::Request
    } else if value == 2 {
        ErrorCode::Value
    } else if value == 3 {
        ErrorCode::Window
    } else if value == 4 {
        ErrorCode::Pixmap
    } else if value == 5 {
        ErrorCode::Atom
    } else if value == 6 {
        ErrorCode::Cursor
    } else if value == 7 {
        ErrorCode::Font
    } else if value == 8 {
        ErrorCode::Match
    } else if value == 9 {
        ErrorCode::Drawable
    } else if value == 10 {
        ErrorCode::Access
    } else if value == 11 {
        ErrorCode::Alloc
    } else if value == 12 {
        ErrorCode::Colormap
    } else if value == 13 {
        ErrorCode::GContext
    } else if value == 14 {
        ErrorCode::IdChoice
    } else if value == 15 {
        ErrorCode::Name
    } else if value == 16 {
        ErrorCode::Length
    } else if value == 17 {
        ErrorCode::Implementation
    } else {
        ErrorCode::Unknown
    }
}

impl ErrorCode {
    /// The class named by the code byte of an error record.
    pub fn from(value: u8) -> (r: ErrorCode)
        ensures
            r == error_code_of(value),
    {
        match value {
            1 => ErrorCode::Request,
            2 => ErrorCode::Value,
            3 => ErrorCode::Window,
            4 => ErrorCode::Pixmap,
            5 => ErrorCode::Atom,
            6 => ErrorCode::Cursor,
            7 => ErrorCode::Font,
            8 => ErrorCode::Match,
            9 => ErrorCode::Drawable,
            10 => ErrorCode::Access,
            11 => ErrorCode::Alloc,
            12 => ErrorCode::Colormap,
            13 => ErrorCode::GContext,
            14 => ErrorCode::IdChoice,
            15 => ErrorCode::Name,
            16 => ErrorCode::Length,
            17 => ErrorCode::Implementation,
            _ => ErrorCode::Unknown,
        }
    }
}

/// A first-in first-out queue with two channels for errors.
///
/// An error posted for one request (`post_error`) is handed out once, before any item. A
/// failure pushed with `push_error` stays: from then on every take, by every caller, fails
/// with it.
pub struct Queue<T> {
    pub items: Vec<T>,
    pub errors: Vec<Error>,
    pub failed: Option<Error>,
}

impl<T> Queue<T> {
    pub fn new() -> (r: Queue<T>)
        ensures
            r.items@ == Seq::<T>::empty(),
            r.errors@ == Seq::<Error>::empty(),
            r.failed is None,
    {
        Queue { items: Vec::new(), errors: Vec::new(), failed: None }
    }

    /// Surfaces an error: the failure of the queue, for every caller, else the first error
    /// posted for a request, which is then handed out.
    pub fn poll_error(&mut self) -> (r: Result<(), Error>)
        ensures
            final(self).items@ == old(self).items@,
            final(self).failed == old(self).failed,
            old(self).failed is Some ==> r == Err::<(), Error>(old(self).failed->0) && final(
                self).errors@ == old(self).errors@,
            old(self).failed is None && old(self).errors@.len() > 0 ==> r == Err::<(), Error>(
                old(self).errors@[0],
            ) && final(self).errors@ == old(self).errors@.drop_first(),
            old(self).failed is None && old(self).errors@.len() == 0 ==> r == Ok::<(), Error>(())
                && final(self).errors@ == old(self).errors@,
    {
        match &self.failed {
            Some(e) => {
                return Err(e.duplicate());
            },
            None => {},
        }
        if self.errors.len() > 0 {
            let e = self.errors.remove(0);
            assert(self.errors@ =~= old(self).errors@.drop_first());
            Err(e)
        } else {
            Ok(())
        }
    }

    /// Whether an item is ready, after surfacing an error.
    pub fn poll(&mut self) -> (r: Result<bool, Error>)
        ensures
            final(self).items@ == old(self).items@,
            final(self).failed == old(self).failed,
            old(self).failed is Some ==> r == Err::<bool, Error>(old(self).failed->0),
            old(self).failed is None && old(self).errors@.len() > 0 ==> r == Err::<bool, Error>(
                old(self).errors@[0],
            ) && final(self).errors@ == old(self).errors@.drop_first(),
            old(self).failed is None && old(self).errors@.len() == 0 ==> r == Ok::<bool, Error>(
                old(self).items@.len() > 0,
            ) && final(self).errors@ == old(self).errors@,
    {
        self.poll_error()?;
        Ok(self.items.len() > 0)
    }

    /// Takes the first item, after surfacing an error.
    pub fn pop(&mut self) -> (r: Result<Option<T>, Error>)
        ensures
            final(self).failed == old(self).failed,
            old(self).failed is Some ==> r == Err::<Option<T>, Error>(old(self).failed->0)
                && final(self).items@ == old(self).items@,
            old(self).failed is None && old(self).errors@.len() > 0 ==> r == Err::<
                Option<T>,
                Error,
            >(old(self).errors@[0]) && final(self).errors@ == old(self).errors@.drop_first()
                && final(self).items@ == old(self).items@,
            old(self).failed is None && old(self).errors@.len() == 0 && old(self).items@.len() > 0
                ==> r == Ok::<Option<T>, Error>(Some(old(self).items@[0])) && final(self).items@
                == old(self).items@.drop_first() && final(self).errors@ == old(self).errors@,
            old(self).failed is None && old(self).errors@.len() == 0 && old(self).items@.len() == 0
                ==> r == Ok::<Option<T>, Error>(None) && final(self).items@ == old(self).items@
                && final(self).errors@ == old(self).errors@,
    {
        self.poll_error()?;
        if self.items.len() > 0 {
            let item = self.items.remove(0);
            assert(self.items@ =~= old(self).items@.drop_first());
            Ok(Some(item))
        } else {
            Ok(None)
        }
    }

    /// Appends an item.
    pub fn push(&mut self, element: T)
        ensures
            final(self).items@ == old(self).items@.push(element),
            final(self).errors@ == old(self).errors@,
            final(self).failed == old(self).failed,
    {
        self.items.push(element);
    }

    /// Posts an error for one request: the next take hands it out, once.
    pub fn post_error(&mut self, error: Error)
        ensures
            final(self).items@ == old(self).items@,
            final(self).errors@ == old(self).errors@.push(error),
            final(self).failed == old(self).failed,
    {
        self.errors.push(error);
    }

    /// Fails the queue for good: every take from now on, by every caller, fails with
    /// `error` (or with the failure pushed before it).
    pub fn push_error(&mut self, error: Error)
        ensures
            final(self).items@ == old(self).items@,
            final(self).errors@ == old(self).errors@,
            final(self).failed == if old(self).failed is Some {
                old(self).failed
            } else {
                Some(error)
            },
    {
        if self.failed.is_none() {
            self.failed = Some(error);
        }
    }

    /// Fails the queue with `Error::Terminated`, as when the connection is lost.
    pub fn terminate(&mut self)
        ensures
            final(self).items@ == old(self).items@,
            final(self).errors@ == old(self).errors@,
            final(self).failed == if old(self).failed is Some {
                old(self).failed
            } else {
                Some(Error::Terminated)
            },
    {
        self.push_error(Error::Terminated);
    }
}

/// The shape of the reply that a request asks for.
#[derive(Debug, Clone, Copy, PartialEq, Eq, Structural)]
pub enum ReplyKind {
    InternAtom,
    GetProperty,
    GetWindowAttributes,
    QueryPointer,
    GetKeyboardMapping,
    GetInputFocus,
    GetGeometry,
    GrabPointer,
    QueryExtension,
    GetSelectionOwner,
    XineramaIsActive,
    XineramaQueryScreens,
}

/// A request that waits for its reply.
#[derive(Debug, Clone, Copy, PartialEq, Eq, Structural)]
pub struct Sequence {
    pub id: u16,
    pub kind: ReplyKind,
}

impl Sequence {
    pub fn new(id: u16, kind: ReplyKind) -> (r: Sequence)
        ensures
            r == (Sequence { id, kind }),
    {
        Sequence { id, kind }
    }
}

/// The sequence number that follows `id`, as the server counts.
pub open spec fn next_id(id: u16) -> u16 {
    ((id as int + 1) % 65536) as u16
}

/// Whether position `i` of `s` is the oldest request waiting on sequence `id`.
pub open spec fn oldest_pending(s: Seq<Sequence>, id: u16, i: int) -> bool {
    &&& 0 <= i < s.len()
    &&& s[i].id == id
    &&& forall|j: int| 0 <= j < i ==> s[j].id != id
}

/// Whether some request of `s` waits on sequence `id`.
pub open spec fn is_pending(s: Seq<Sequence>, id: u16) -> bool {
    exists|i: int| 0 <= i < s.len() && s[i].id == id
}

/// The sequence number of the `n`-th request of a connection.
pub open spec fn id_after(n: nat) -> u16
    decreases n,
{
    if n == 0 {
        0
    } else {
        next_id(id_after((n - 1) as nat))
    }
}

/// The `n`-th request of a connection is numbered `n` modulo 2^16, as the server numbers it.
pub proof fn lemma_sequence_integrity(n: nat)
    ensures
        id_after(n) == n % 65536,
    decreases n,
{
    if n > 0 {
        lemma_sequence_integrity((n - 1) as nat);
    }
}

/// Numbers keep the order of the requests: a request sent `k` requests after another has a
/// number `k` above it, modulo 2^16.
pub proof fn lemma_order_kept(n: nat, m: nat)
    requires
        n <= m,
    ensures
        (id_after(m) as int - id_after(n) as int) % 65536 == (m - n) % 65536,
{
    lemma_sequence_integrity(n);
    lemma_sequence_integrity(m);
    assert((m as int % 65536 - n as int % 65536) % 65536 == (m - n) % 65536) by (nonlinear_arith);
}

/// A request numbered with a reply kind waits on its number, so its reply is routed to it.
pub proof fn lemma_issued_is_pending(pending: Seq<Sequence>, id: u16, kind: ReplyKind)
    ensures
        is_pending(pending.push(Sequence { id, kind }), id),
{
    let s = pending.push(Sequence { id, kind });
    assert(s[s.len() - 1].id == id);
}

/// Numbers the requests of one connection and remembers those that wait for a reply.
pub struct SequenceManager {
    /// The sequence number of the last request sent.
    pub id: u16,
    /// The requests that still wait for a reply, oldest first.
    pub sequences: Vec<Sequence>,
}

impl SequenceManager {
    pub fn new() -> (r: SequenceManager)
        ensures
            r.id == 0,
            r.sequences@ == Seq::<Sequence>::empty(),
    {
        SequenceManager { id: 0, sequences: Vec::new() }
    }

    /// Numbers a request that expects no reply.
    pub fn skip(&mut self) -> (r: u16)
        ensures
            r == next_id(old(self).id),
            final(self).id == r,
            final(self).sequences@ == old(self).sequences@,
    {
        self.id = if self.id == 65535 {
            0
        } else {
            self.id + 1
        };
        self.id
    }

    /// Numbers a request that expects a reply of the given kind, and remembers it.
    pub fn append(&mut self, kind: ReplyKind) -> (r: u16)
        ensures
            r == next_id(old(self).id),
            final(self).id == r,
            final(self).sequences@ == old(self).sequences@.push(Sequence { id: r, kind }),
    {
        let id = self.skip();
        self.sequences.push(Sequence::new(id, kind));
        id
    }

    /// Numbers a request, remembering it when it expects a reply.
    pub fn issue(&mut self, reply: Option<ReplyKind>) -> (r: u16)
        ensures
            r == next_id(old(self).id),
            final(self).id == r,
            final(self).sequences@ == match reply {
                Some(kind) => old(self).sequences@.push(Sequence { id: r, kind }),
                None => old(self).sequences@,
            },
    {
        match reply {
            Some(kind) => self.append(kind),
            None => self.skip(),
        }
    }

    /// Takes the oldest request waiting on sequence `id`; a number that nothing waits on is
    /// refused.
    pub fn get(&mut self, id: u16) -> (r: Result<Sequence, Error>)
        ensures
            final(self).id == old(self).id,
            r is Ok <==> is_pending(old(self).sequences@, id),
            r is Ok ==> exists|i: int|
                oldest_pending(old(self).sequences@, id, i) && r == Ok::<Sequence, Error>(
                    old(self).sequences@[i],
                ) && final(self).sequences@ == old(self).sequences@.remove(i),
            r is Err ==> r == Err::<Sequence, Error>(Error::InvalidId) && final(self).sequences@
                == old(self).sequences@,
    {
        let mut i: usize = 0;
        while i < self.sequences.len()
            invariant
                self.id == old(self).id,
                self.sequences@ == old(self).sequences@,
                0 <= i <= self.sequences@.len(),
                forall|j: int| 0 <= j < i ==> self.sequences@[j].id != id,
            decreases self.sequences@.len() - i,
        {
            if self.sequences[i].id == id {
                let ghost before = self.sequences@;
                let found = self.sequences.remove(i);
                assert(oldest_pending(before, id, i as int));
                return Ok(found);
            }
            i = i + 1;
        }
        Err(Error::InvalidId)
    }
}

/// Where a configured window goes in the stacking order.
#[derive(Debug, Clone, Copy, PartialEq, Eq, Structural)]
pub enum StackMode {
    Above,
    Below,
    TopIf,
    BottomIf,
    Opposite,
}

impl StackMode {
    pub open spec fn spec_value(&self) -> u32 {
        match *self {
            StackMode::Above => 0u32,
            StackMode::Below => 1u32,
            StackMode::TopIf => 2u32,
            StackMode::BottomIf => 3u32,
            StackMode::Opposite => 4u32,
        }
    }

    /// Its value on the wire.
    pub fn value(&self) -> (r: u32)
        ensures
            r == self.spec_value(),
    {
        match self {
            StackMode::Above => 0,
            StackMode::Below => 1,
            StackMode::TopIf => 2,
            StackMode::BottomIf => 3,
            StackMode::Opposite => 4,
        }
    }

    pub open spec fn from_spec(value: u8) -> StackMode {
        if value == 0 {
            StackMode::Above
        } else if value == 1 {
            StackMode::Below
        } else if value == 2 {
            StackMode::TopIf
        } else if value == 3 {
            StackMode::BottomIf
        } else if value == 4 {
            StackMode::Opposite
        } else {
            StackMode::Above
        }
    }

    /// The mode that a wire value names; values the protocol does not define read as `Above`.
    pub fn from(value: u8) -> (r: StackMode)
        ensures
            r == StackMode::from_spec(value),
    {
        match value {
            0 => StackMode::Above,
            1 => StackMode::Below,
            2 => StackMode::TopIf,
            3 => StackMode::BottomIf,
            4 => StackMode::Opposite,
            _ => StackMode::Above,
        }
    }
}

/// Where a circulated window went.
#[derive(Debug, Clone, Copy, PartialEq, Eq, Structural)]
pub enum Place {
    Top,
    Bottom,
}

impl Place {
    pub open spec fn from_spec(value: u8) -> Place {
        if value == 0 {
            Place::Top
        } else {
            Place::Bottom
        }
    }

    /// The place that a wire value names: 0 is the top, any other value the bottom.
    pub fn from(value: u8) -> (r: Place)
        ensures
            r == Place::from_spec(value),
    {
        match value {
            0 => Place::Top,
            _ => Place::Bottom,
        }
    }
}

/// Where the input focus goes when its window becomes unviewable.
#[derive(Debug, Clone, Copy, PartialEq, Eq, Structural)]
pub enum RevertTo {
    No,
    PointerRoot,
    Parent,
}

impl RevertTo {
    pub open spec fn spec_value(&self) -> u8 {
        match *self {
            RevertTo::No => 0u8,
            RevertTo::PointerRoot => 1u8,
            RevertTo::Parent => 2u8,
        }
    }

    /// Its value on the wire.
    pub fn value(&self) -> (r: u8)
        ensures
            r == self.spec_value(),
    {
        match self {
            RevertTo::No => 0,
            RevertTo::PointerRoot => 1,
            RevertTo::Parent => 2,
        }
    }
}

/// The class of a window.
#[derive(Debug, Clone, Copy, PartialEq, Eq, Structural)]
pub enum WindowClass {
    CopyFromParent,
    InputOutput,
    InputOnly,
}

impl WindowClass {
    pub open spec fn spec_value(&self) -> u16 {
        match *self {
            WindowClass::CopyFromParent => 0u16,
            WindowClass::InputOutput => 1u16,
            WindowClass::InputOnly => 2u16,
        }
    }

    /// Its value on the wire.
    pub fn value(&self) -> (r: u16)
        ensures
            r == self.spec_value(),
    {
        match self {
            WindowClass::CopyFromParent => 0,
            WindowClass::InputOutput => 1,
            WindowClass::InputOnly => 2,
        }
    }

    pub open spec fn from_spec(value: u16) -> WindowClass {
        if value == 0 {
            WindowClass::CopyFromParent
        } else if value == 1 {
            WindowClass::InputOutput
        } else if value == 2 {
            WindowClass::InputOnly
        } else {
            WindowClass::CopyFromParent
        }
    }

    /// The class that a wire value names; values the protocol does not define read as `CopyFromParent`.
    pub fn from(value: u16) -> (r: WindowClass)
        ensures
            r == WindowClass::from_spec(value),
    {
        match value {
            0 => WindowClass::CopyFromParent,
            1 => WindowClass::InputOutput,
            2 => WindowClass::InputOnly,
            _ => WindowClass::CopyFromParent,
        }
    }
}

/// The class of a visual.
#[derive(Debug, Clone, Copy, PartialEq, Eq, Structural)]
pub enum VisualClass {
    StaticGray,
    GrayScale,
    StaticColor,
    PsuedoColor,
    TrueColor,
    DirectColor,
}

impl VisualClass {
    pub open spec fn spec_value(&self) -> u8 {
        match *self {
            VisualClass::StaticGray => 0u8,
            VisualClass::GrayScale => 1u8,
            VisualClass::StaticColor => 2u8,
            VisualClass::PsuedoColor => 3u8,
            VisualClass::TrueColor => 4u8,
            VisualClass::DirectColor => 5u8,
        }
    }

    /// Its value on the wire.
    pub fn value(&self) -> (r: u8)
        ensures
            r == self.spec_value(),
    {
        match self {
            VisualClass::StaticGray => 0,
            VisualClass::GrayScale => 1,
            VisualClass::StaticColor => 2,
            VisualClass::PsuedoColor => 3,
            VisualClass::TrueColor => 4,
            VisualClass::DirectColor => 5,
        }
    }

    pub open spec fn from_spec(value: u8) -> VisualClass {
        if value == 0 {
            VisualClass::StaticGray
        } else if value == 1 {
            VisualClass::GrayScale
        } else if value == 2 {
            VisualClass::StaticColor
        } else if value == 3 {
            VisualClass::PsuedoColor
        } else if value == 4 {
            VisualClass::TrueColor
        } else if value == 5 {
            VisualClass::DirectColor
        } else {
            VisualClass::StaticGray
        }
    }

    /// The class that a wire value names; values the protocol does not define read as `StaticGray`.
    pub fn from(value: u8) -> (r: VisualClass)
        ensures
            r == VisualClass::from_spec(value),
    {
        match value {
            0 => VisualClass::StaticGray,
            1 => VisualClass::GrayScale,
            2 => VisualClass::StaticColor,
            3 => VisualClass::PsuedoColor,
            4 => VisualClass::TrueColor,
            5 => VisualClass::DirectColor,
            _ => VisualClass::StaticGray,
        }
    }
}

/// When the server keeps the contents of a window.
#[derive(Debug, Clone, Copy, PartialEq, Eq, Structural)]
pub enum BackingStore {
    NotUseful,
    WhenMapped,
    Always,
}

impl BackingStore {
    pub open spec fn spec_value(&self) -> u32 {
        match *self {
            BackingStore::NotUseful => 0u32,
            BackingStore::WhenMapped => 1u32,
            BackingStore::Always => 2u32,
        }
    }

    /// Its value on the wire.
    pub fn value(&self) -> (r: u32)
        ensures
            r == self.spec_value(),
    {
        match self {
            BackingStore::NotUseful => 0,
            BackingStore::WhenMapped => 1,
            BackingStore::Always => 2,
        }
    }
}

/// How contents or children move when a window is resized.
#[derive(Debug, Clone, Copy, PartialEq, Eq, Structural)]
pub enum Gravity {
    Forget,
    NorthWest,
    North,
    NorthEast,
    West,
    Center,
    East,
    SouthWest,
    South,
    SouthEast,
    Static,
}

impl Gravity {
    pub open spec fn spec_value(&self) -> u32 {
        match *self {
            Gravity::Forget => 0u32,
            Gravity::NorthWest => 1u32,
            Gravity::North => 2u32,
            Gravity::NorthEast => 3u32,
            Gravity::West => 4u32,
            Gravity::Center => 5u32,
            Gravity::East => 6u32,
            Gravity::SouthWest => 7u32,
            Gravity::South => 8u32,
            Gravity::SouthEast => 9u32,
            Gravity::Static => 10u32,
        }
    }

    /// Its value on the wire.
    pub fn value(&self) -> (r: u32)
        ensures
            r == self.spec_value(),
    {
        match self {
            Gravity::Forget => 0,
            Gravity::NorthWest => 1,
            Gravity::North => 2,
            Gravity::NorthEast => 3,
            Gravity::West => 4,
            Gravity::Center => 5,
            Gravity::East => 6,
            Gravity::SouthWest => 7,
            Gravity::South => 8,
            Gravity::SouthEast => 9,
            Gravity::Static => 10,
        }
    }
}

/// A modifier key or button in a state mask.
#[derive(Debug, Clone, Copy, PartialEq, Eq, Structural)]
pub enum KeyMask {
    Shift,
    Lock,
    Control,
    Mod1,
    Mod2,
    Mod3,
    Mod4,
    Mod5,
    Button1,
    Button2,
    Button3,
    Button4,
    Button5,
}

impl KeyMask {
    pub open spec fn spec_value(&self) -> u16 {
        match *self {
            KeyMask::Shift => 1u16,
            KeyMask::Lock => 2u16,
            KeyMask::Control => 4u16,
            KeyMask::Mod1 => 8u16,
            KeyMask::Mod2 => 16u16,
            KeyMask::Mod3 => 32u16,
            KeyMask::Mod4 => 64u16,
            KeyMask::Mod5 => 128u16,
            KeyMask::Button1 => 256u16,
            KeyMask::Button2 => 512u16,
            KeyMask::Button3 => 1024u16,
            KeyMask::Button4 => 2048u16,
            KeyMask::Button5 => 4096u16,
        }
    }

    /// Its bit in a modifier mask.
    pub fn value(&self) -> (r: u16)
        ensures
            r == self.spec_value(),
    {
        match self {
            KeyMask::Shift => 1,
            KeyMask::Lock => 2,
            KeyMask::Control => 4,
            KeyMask::Mod1 => 8,
            KeyMask::Mod2 => 16,
            KeyMask::Mod3 => 32,
            KeyMask::Mod4 => 64,
            KeyMask::Mod5 => 128,
            KeyMask::Button1 => 256,
            KeyMask::Button2 => 512,
            KeyMask::Button3 => 1024,
            KeyMask::Button4 => 2048,
            KeyMask::Button5 => 4096,
        }
    }
}

/// Whether input is frozen during a grab.
#[derive(Debug, Clone, Copy, PartialEq, Eq, Structural)]
pub enum Mode {
    Synchronous,
    Asynchronous,
}

impl Mode {
    pub open spec fn spec_value(&self) -> u8 {
        match *self {
            Mode::Synchronous => 0u8,
            Mode::Asynchronous => 1u8,
        }
    }

    /// Its value on the wire.
    pub fn value(&self) -> (r: u8)
        ensures
            r == self.spec_value(),
    {
        match self {
            Mode::Synchronous => 0,
            Mode::Asynchronous => 1,
        }
    }
}

/// Why the pointer entered or left a window.
#[derive(Debug, Clone, Copy, PartialEq, Eq, Structural)]
pub enum EnterMode {
    Normal,
    Grab,
    Ungrab,
}

impl EnterMode {
    pub open spec fn from_spec(value: u8) -> EnterMode {
        if value == 1 {
            EnterMode::Grab
        } else if value == 2 {
            EnterMode::Ungrab
        } else {
            EnterMode::Normal
        }
    }

    /// The mode that a wire value names; values the protocol does not define read as `Normal`.
    pub fn from(value: u8) -> (r: EnterMode)
        ensures
            r == EnterMode::from_spec(value),
    {
        match value {
            1 => EnterMode::Grab,
            2 => EnterMode::Ungrab,
            _ => EnterMode::Normal,
        }
    }
}

/// An event class that a client can select.
#[derive(Debug, Clone, Copy, PartialEq, Eq, Structural)]
pub enum EventMask {
    NoEvent,
    KeyPress,
    KeyRelease,
    ButtonPress,
    ButtonRelease,
    EnterWindow,
    LeaveWindow,
    PointerMotion,
    PointerMotionHint,
    Button1Motion,
    Button2Motion,
    Button3Motion,
    Button4Motion,
    Button5Motion,
    ButtonMotion,
    KeymapState,
    Exposure,
    VisibilityChange,
    StructureNotify,
    ResizeRedirect,
    SubstructureNotify,
    SubstructureRedirect,
    FocusChange,
    PropertyChange,
    ColorMapChange,
    OwnerGrabButton,
}

impl EventMask {
    pub open spec fn spec_value(&self) -> u32 {
        match *self {
            EventMask::NoEvent => 0u32,
            EventMask::KeyPress => 1u32,
            EventMask::KeyRelease => 2u32,
            EventMask::ButtonPress => 4u32,
            EventMask::ButtonRelease => 8u32,
            EventMask::EnterWindow => 16u32,
            EventMask::LeaveWindow => 32u32,
            EventMask::PointerMotion => 64u32,
            EventMask::PointerMotionHint => 128u32,
            EventMask::Button1Motion => 256u32,
            EventMask::Button2Motion => 512u32,
            EventMask::Button3Motion => 1024u32,
            EventMask::Button4Motion => 2048u32,
            EventMask::Button5Motion => 4096u32,
            EventMask::ButtonMotion => 8192u32,
            EventMask::KeymapState => 16384u32,
            EventMask::Exposure => 32768u32,
            EventMask::VisibilityChange => 65536u32,
            EventMask::StructureNotify => 131072u32,
            EventMask::ResizeRedirect => 262144u32,
            EventMask::SubstructureNotify => 524288u32,
            EventMask::SubstructureRedirect => 1048576u32,
            EventMask::FocusChange => 2097152u32,
            EventMask::PropertyChange => 4194304u32,
            EventMask::ColorMapChange => 8388608u32,
            EventMask::OwnerGrabButton => 16777216u32,
        }
    }

    /// Its bit in an event mask.
    pub fn value(&self) -> (r: u32)
        ensures
            r == self.spec_value(),
    {
        match self {
            EventMask::NoEvent => 0,
            EventMask::KeyPress => 1,
            EventMask::KeyRelease => 2,
            EventMask::ButtonPress => 4,
            EventMask::ButtonRelease => 8,
            EventMask::EnterWindow => 16,
            EventMask::LeaveWindow => 32,
            EventMask::PointerMotion => 64,
            EventMask::PointerMotionHint => 128,
            EventMask::Button1Motion => 256,
            EventMask::Button2Motion => 512,
            EventMask::Button3Motion => 1024,
            EventMask::Button4Motion => 2048,
            EventMask::Button5Motion => 4096,
            EventMask::ButtonMotion => 8192,
            EventMask::KeymapState => 16384,
            EventMask::Exposure => 32768,
            EventMask::VisibilityChange => 65536,
            EventMask::StructureNotify => 131072,
            EventMask::ResizeRedirect => 262144,
            EventMask::SubstructureNotify => 524288,
            EventMask::SubstructureRedirect => 1048576,
            EventMask::FocusChange => 2097152,
            EventMask::PropertyChange => 4194304,
            EventMask::ColorMapChange => 8388608,
            EventMask::OwnerGrabButton => 16777216,
        }
    }
}

/// A cursor for grabs; only "none" is offered.
#[derive(Debug, Clone, Copy, PartialEq, Eq, Structural)]
pub enum Cursor {
    Nop,
}

impl Cursor {
    pub open spec fn spec_value(&self) -> u32 {
        match *self {
            Cursor::Nop => 0u32,
        }
    }

    /// Its value on the wire.
    pub fn value(&self) -> (r: u32)
        ensures
            r == self.spec_value(),
    {
        match self {
            Cursor::Nop => 0,
        }
    }
}

/// A pointer button.
#[derive(Debug, Clone, Copy, PartialEq, Eq, Structural)]
pub enum Button {
    Button1,
    Button2,
    Button3,
    Button4,
    Button5,
}

impl Button {
    pub open spec fn spec_value(&self) -> u8 {
        match *self {
            Button::Button1 => 1u8,
            Button::Button2 => 2u8,
            Button::Button3 => 3u8,
            Button::Button4 => 4u8,
            Button::Button5 => 5u8,
        }
    }

    /// Its value on the wire.
    pub fn value(&self) -> (r: u8)
        ensures
            r == self.spec_value(),
    {
        match self {
            Button::Button1 => 1,
            Button::Button2 => 2,
            Button::Button3 => 3,
            Button::Button4 => 4,
            Button::Button5 => 5,
        }
    }

    pub open spec fn from_spec(value: u8) -> Button {
        if value == 1 {
            Button::Button1
        } else if value == 2 {
            Button::Button2
        } else if value == 3 {
            Button::Button3
        } else if value == 4 {
            Button::Button4
        } else {
            Button::Button5
        }
    }

    /// The button that a wire value names; values above four read as `Button5`.
    pub fn from(value: u8) -> (r: Button)
        ensures
            r == Button::from_spec(value),
    {
        match value {
            1 => Button::Button1,
            2 => Button::Button2,
            3 => Button::Button3,
            4 => Button::Button4,
            _ => Button::Button5,
        }
    }
}

/// How a focus change relates the two windows.
#[derive(Debug, Clone, Copy, PartialEq, Eq, Structural)]
pub enum FocusDetail {
    Ancestor,
    Virtual,
    Inferior,
    Nonlinear,
    NonlinearVirtual,
    Pointer,
    PointerRoot,
    Nop,
}

impl FocusDetail {
    pub open spec fn from_spec(value: u8) -> FocusDetail {
        if value == 0 {
            FocusDetail::Ancestor
        } else if value == 1 {
            FocusDetail::Virtual
        } else if value == 2 {
            FocusDetail::Inferior
        } else if value == 3 {
            FocusDetail::Nonlinear
        } else if value == 4 {
            FocusDetail::NonlinearVirtual
        } else if value == 5 {
            FocusDetail::Pointer
        } else if value == 6 {
            FocusDetail::PointerRoot
        } else {
            FocusDetail::Nop
        }
    }

    /// The detail that a wire value names; other values read as `Nop`.
    pub fn from(value: u8) -> (r: FocusDetail)
        ensures
            r == FocusDetail::from_spec(value),
    {
        match value {
            0 => FocusDetail::Ancestor,
            1 => FocusDetail::Virtual,
            2 => FocusDetail::Inferior,
            3 => FocusDetail::Nonlinear,
            4 => FocusDetail::NonlinearVirtual,
            5 => FocusDetail::Pointer,
            6 => FocusDetail::PointerRoot,
            _ => FocusDetail::Nop,
        }
    }
}

/// Why the focus changed.
#[derive(Debug, Clone, Copy, PartialEq, Eq, Structural)]
pub enum FocusMode {
    Normal,
    Grab,
    Ungrab,
    WhileGrab,
}

impl FocusMode {
    pub open spec fn from_spec(value: u8) -> FocusMode {
        if value == 1 {
            FocusMode::Grab
        } else if value == 2 {
            FocusMode::Ungrab
        } else if value == 3 {
            FocusMode::WhileGrab
        } else {
            FocusMode::Normal
        }
    }

    /// The mode that a wire value names; values the protocol does not define read as `Normal`.
    pub fn from(value: u8) -> (r: FocusMode)
        ensures
            r == FocusMode::from_spec(value),
    {
        match value {
            1 => FocusMode::Grab,
            2 => FocusMode::Ungrab,
            3 => FocusMode::WhileGrab,
            _ => FocusMode::Normal,
        }
    }
}

/// What happened to a property.
#[derive(Debug, Clone, Copy, PartialEq, Eq, Structural)]
pub enum PropertyState {
    NewValue,
    Deleted,
}

impl PropertyState {
    pub open spec fn from_spec(value: u8) -> PropertyState {
        if value == 0 {
            PropertyState::NewValue
        } else {
            PropertyState::Deleted
        }
    }

    /// The state that a wire value names: 0 is a new value, any other value a deletion.
    pub fn from(value: u8) -> (r: PropertyState)
        ensures
            r == PropertyState::from_spec(value),
    {
        match value {
            0 => PropertyState::NewValue,
            _ => PropertyState::Deleted,
        }
    }
}


pub type PointerMode = Mode;

pub type KeyboardMode = Mode;

/// Whether a key or button went down or up.
#[derive(Debug, Clone, Copy, PartialEq, Eq, Structural)]
pub enum EventKind {
    Press,
    Release,
}

/// Pointer positions relative to the event window and to the root.
#[derive(Debug, Clone, Copy, PartialEq, Eq, Structural)]
pub struct Coordinates {
    pub x: u16,
    pub y: u16,
    pub root_x: u16,
    pub root_y: u16,
}

impl Coordinates {
    pub fn new(x: u16, y: u16, root_x: u16, root_y: u16) -> (r: Coordinates)
        ensures
            r == (Coordinates { x, y, root_x, root_y }),
    {
        Coordinates { x, y, root_x, root_y }
    }
}

/// The 20 data bytes of a client message, in one of three formats.
#[derive(Debug, Clone, Copy, PartialEq, Eq)]
pub enum ClientMessageData {
    Byte([u8; 20]),
    Short([u16; 10]),
    Long([u32; 5]),
}

pub open spec fn client_data_bytes(data: ClientMessageData, order: ByteOrder) -> Seq<u8> {
    match data {
        ClientMessageData::Byte(b) => b@,
        ClientMessageData::Short(s) => u16s_bytes(order, s@),
        ClientMessageData::Long(l) => u32s_bytes(order, l@),
    }
}

impl ClientMessageData {
    /// The 20 bytes of the message data.
    pub fn encode(&self, order: ByteOrder) -> (r: Vec<u8>)
        ensures
            r@ == client_data_bytes(*self, order),
    {
        let mut out: Vec<u8> = Vec::new();
        match self {
            ClientMessageData::Byte(bytes) => {
                put_bytes(&mut out, bytes.as_slice());
            },
            ClientMessageData::Short(shorts) => {
                let mut i: usize = 0;
                while i < 10
                    invariant
                        i <= 10,
                        shorts@.len() == 10,
                        out@ == u16s_bytes(order, shorts@.subrange(0, i as int)),
                    decreases 10 - i,
                {
                    put_u16(&mut out, order, shorts[i]);
                    assert(shorts@.subrange(0, i + 1).drop_last() =~= shorts@.subrange(
                        0,
                        i as int,
                    ));
                    i = i + 1;
                }
                assert(shorts@.subrange(0, 10) =~= shorts@);
            },
            ClientMessageData::Long(longs) => {
                put_u32s(&mut out, order, longs.as_slice());
                assert(out@ =~= u32s_bytes(order, longs@));
            },
        }
        out
    }
}

/// An event as the server delivers it.
#[derive(Debug, Clone, PartialEq, Eq)]
pub enum Event {
    KeyEvent {
        kind: EventKind,
        coordinates: Coordinates,
        window: u32,
        root: u32,
        subwindow: u32,
        state: u16,
        keycode: u8,
        send_event: bool,
    },
    ButtonEvent {
        kind: EventKind,
        coordinates: Coordinates,
        window: u32,
        root: u32,
        subwindow: u32,
        state: u16,
        button: Button,
        send_event: bool,
    },
    MotionNotify {
        coordinates: Coordinates,
        window: u32,
        root: u32,
        subwindow: u32,
        state: u16,
        send_event: bool,
    },
    EnterNotify {
        root: u32,
        window: u32,
        child: u32,
        coordinates: Coordinates,
        state: u16,
        mode: EnterMode,
        focus: bool,
        same_screen: bool,
    },
    FocusIn { detail: FocusDetail, mode: FocusMode, window: u32 },
    FocusOut { detail: FocusDetail, mode: FocusMode, window: u32 },
    CreateNotify { parent: u32, window: u32, x: u16, y: u16, width: u16, height: u16 },
    DestroyNotify { event: u32, window: u32 },
    UnmapNotify { event: u32, window: u32, configure: bool },
    MapNotify { event: u32, window: u32, override_redirect: bool },
    MapRequest { parent: u32, window: u32 },
    ReparentNotify {
        event: u32,
        window: u32,
        parent: u32,
        x: u16,
        y: u16,
        override_redirect: bool,
    },
    ConfigureNotify {
        event: u32,
        window: u32,
        above_sibling: u32,
        x: u16,
        y: u16,
        width: u16,
        height: u16,
        border_width: u16,
        override_redirect: bool,
    },
    ConfigureRequest { window: u32, values: Vec<ConfigureValue> },
    GravityNotify { event: u32, window: u32, x: u16, y: u16 },
    CirculateNotify { event: u32, window: u32, place: Place },
    CirculateRequest { parent: u32, window: u32, place: Place },
    PropertyNotify { window: u32, atom: Atom, time: u32, state: PropertyState },
    SelectionClear { time: u32, owner: u32, selection: Atom },
    SelectionRequest { time: u32, owner: u32, selection: Atom, target: Atom, property: Atom },
    SelectionNotify { time: u32, requestor: u32, selection: Atom, target: Atom, property: Atom },
    ClientMessage { format: u8, window: u32, type_: Atom, data: ClientMessageData },
    MappingNotify { request: u8, keycode: u8, count: u8 },
}

/// The code byte of an event record.
pub open spec fn event_code(event: Event) -> u8 {
    match event {
        Event::KeyEvent { kind, .. } => if kind == EventKind::Press {
            Response::KEY_PRESS
        } else {
            Response::KEY_RELEASE
        },
        Event::ButtonEvent { kind, .. } => if kind == EventKind::Press {
            Response::BUTTON_PRESS
        } else {
            Response::BUTTON_RELEASE
        },
        Event::MotionNotify { .. } => Response::MOTION_NOTIFY,
        Event::EnterNotify { .. } => Response::ENTER_NOTIFY,
        Event::FocusIn { .. } => Response::FOCUS_IN,
        Event::FocusOut { .. } => Response::FOCUS_OUT,
        Event::CreateNotify { .. } => Response::CREATE_NOTIFY,
        Event::DestroyNotify { .. } => Response::DESTROY_NOTIFY,
        Event::UnmapNotify { .. } => Response::UNMAP_NOTIFY,
        Event::MapNotify { .. } => Response::MAP_NOTIFY,
        Event::MapRequest { .. } => Response::MAP_REQUEST,
        Event::ReparentNotify { .. } => Response::REPARENT_NOTIFY,
        Event::ConfigureNotify { .. } => Response::CONFIGURE_NOTIFY,
        Event::ConfigureRequest { .. } => Response::CONFIGURE_REQUEST,
        Event::GravityNotify { .. } => Response::GRAVITY_NOTIFY,
        Event::CirculateNotify { .. } => Response::CIRCULATE_NOTIFY,
        Event::CirculateRequest { .. } => Response::CIRCULATE_REQUEST,
        Event::PropertyNotify { .. } => Response::PROPERTY_NOTIFY,
        Event::SelectionClear { .. } => Response::SELECTION_CLEAR,
        Event::SelectionRequest { .. } => Response::SELECTION_REQUEST,
        Event::SelectionNotify { .. } => Response::SELECTION_NOTIFY,
        Event::ClientMessage { .. } => Response::CLIENT_MESSAGE,
        Event::MappingNotify { .. } => Response::MAPPING_NOTIFY,
    }
}

/// Whether an event can be written for SendEvent.
pub open spec fn is_sendable(event: Event) -> bool {
    event is SelectionNotify || event is ClientMessage
}

/// The detail byte and the 28 body bytes of an event written for SendEvent.
pub open spec fn send_event_body(event: Event, order: ByteOrder) -> (u8, Seq<u8>) {
    match event {
        Event::SelectionNotify { time, requestor, selection, target, property } => (
            0,
            u32_bytes(order, time) + u32_bytes(order, requestor) + u32_bytes(order, selection.id)
                + u32_bytes(order, target.id) + u32_bytes(order, property.id) + zeros(8),
        ),
        Event::ClientMessage { format, window, type_, data } => (
            format,
            u32_bytes(order, window) + u32_bytes(order, type_.id) + client_data_bytes(data, order),
        ),
        _ => (0, Seq::empty()),
    }
}

/// An event written for SendEvent: the detail byte and the body after the first four bytes.
pub struct SendEventData {
    pub detail: u8,
    pub event: Vec<u8>,
}

impl SendEventData {
    pub fn new(detail: u8, event: Vec<u8>) -> (r: SendEventData)
        ensures
            r.detail == detail,
            r.event@ == event@,
    {
        SendEventData { detail, event }
    }
}

impl Event {
    /// Writes a selection notice or a client message for SendEvent.
    pub fn encode(&self, order: ByteOrder) -> (r: SendEventData)
        requires
            is_sendable(*self),
        ensures
            (r.detail, r.event@) == send_event_body(*self, order),
    {
        match self {
            Event::SelectionNotify { time, requestor, selection, target, property } => {
                let mut out: Vec<u8> = Vec::new();
                put_u32(&mut out, order, *time);
                put_u32(&mut out, order, *requestor);
                put_u32(&mut out, order, selection.id);
                put_u32(&mut out, order, target.id);
                put_u32(&mut out, order, property.id);
                put_zeros(&mut out, 8);
                SendEventData::new(0, out)
            },
            Event::ClientMessage { format, window, type_, data } => {
                let mut out: Vec<u8> = Vec::new();
                put_u32(&mut out, order, *window);
                put_u32(&mut out, order, type_.id);
                let bytes = data.encode(order);
                put_bytes(&mut out, bytes.as_slice());
                SendEventData::new(*format, out)
            },
            _ => SendEventData::new(0, Vec::new()),
        }
    }

    /// The code byte of this event's record.
    pub fn opcode(&self) -> (r: u8)
        ensures
            r == event_code(*self),
    {
        match self {
            Event::KeyEvent { kind, .. } => match kind {
                EventKind::Press => Response::KEY_PRESS,
                EventKind::Release => Response::KEY_RELEASE,
            },
            Event::ButtonEvent { kind, .. } => match kind {
                EventKind::Press => Response::BUTTON_PRESS,
                EventKind::Release => Response::BUTTON_RELEASE,
            },
            Event::MotionNotify { .. } => Response::MOTION_NOTIFY,
            Event::EnterNotify { .. } => Response::ENTER_NOTIFY,
            Event::FocusIn { .. } => Response::FOCUS_IN,
            Event::FocusOut { .. } => Response::FOCUS_OUT,
            Event::CreateNotify { .. } => Response::CREATE_NOTIFY,
            Event::DestroyNotify { .. } => Response::DESTROY_NOTIFY,
            Event::UnmapNotify { .. } => Response::UNMAP_NOTIFY,
            Event::MapNotify { .. } => Response::MAP_NOTIFY,
            Event::MapRequest { .. } => Response::MAP_REQUEST,
            Event::ReparentNotify { .. } => Response::REPARENT_NOTIFY,
            Event::ConfigureNotify { .. } => Response::CONFIGURE_NOTIFY,
            Event::ConfigureRequest { .. } => Response::CONFIGURE_REQUEST,
            Event::GravityNotify { .. } => Response::GRAVITY_NOTIFY,
            Event::CirculateNotify { .. } => Response::CIRCULATE_NOTIFY,
            Event::CirculateRequest { .. } => Response::CIRCULATE_REQUEST,
            Event::PropertyNotify { .. } => Response::PROPERTY_NOTIFY,
            Event::SelectionClear { .. } => Response::SELECTION_CLEAR,
            Event::SelectionRequest { .. } => Response::SELECTION_REQUEST,
            Event::SelectionNotify { .. } => Response::SELECTION_NOTIFY,
            Event::ClientMessage { .. } => Response::CLIENT_MESSAGE,
            Event::MappingNotify { .. } => Response::MAPPING_NOTIFY,
        }
    }
}

/// A decoded reply.
#[derive(Debug, Clone, PartialEq, Eq)]
pub enum Reply {
    InternAtom(InternAtomResponse),
    GetWindowAttributes(GetWindowAttributesResponse),
    GetGeometry(GetGeometryResponse),
    QueryPointer(QueryPointerResponse),
    GetInputFocus(GetInputFocusResponse),
    GrabPointer(GrabPointerResponse),
    QueryExtension(QueryExtensionResponse),
    GetSelectionOwner(GetSelectionOwnerResponse),
    XineramaIsActive(XineramaIsActiveResponse),
    XineramaQueryScreens { screens: Vec<XineramaScreenInfo> },
    GetProperty { type_: Atom, format: u8, value: Vec<u8> },
    GetKeyboardMapping { keysyms: Vec<Keysym>, keysyms_per_keycode: u8 },
}

/// The bytes of one request, ready for the wire, and the reply it waits for, if any.
pub struct Request {
    pub bytes: Vec<u8>,
    pub reply: Option<ReplyKind>,
}

} // verus!
