//! The connection state of one display: its setup, screens, resource ids and router.

pub mod auth;
pub mod error;
pub mod parse;
pub mod request;
pub mod xid;

use vstd::prelude::*;
use vstd::slice::{slice_subrange, slice_to_vec};
use vstd::string::StringSliceAdditionalSpecFns;
use vstd::utf8::{decode_utf8, valid_utf8};

use crate::display::error::Error;
use crate::display::request::{
    marker_byte, pad, pad_len, put_bytes, put_zeros, string_from_utf8, zeros, GetInputFocus,
    GetKeyboardMapping, GetSelectionOwner, GetWindowAttributes, InternAtom, QueryExtension,
    SetupRequest, SetupResponse, SuccessResponse, UngrabPointer,
    get_u16, get_u32, u16_at, u32_at, ButtonEvent, ByteOrder, ErrorEvent, GenericEvent,
    GetGeometryResponse, GetInputFocusResponse, GetSelectionOwnerResponse,
    GetWindowAttributesResponse, GrabPointerResponse, InternAtomResponse, QueryExtensionResponse,
    QueryPointerResponse, XineramaIsActiveResponse, XineramaScreenInfo, CircNotify, ClientMessage, ConfigNotify, ConfigReq, CreateNotify,
    DepthResponse, DestroyNotify, EnterNotify, FocusIn, FocusOut, GravityNotify, KeyEvent,
    MapNotify, MapReq, MappingNotify, PropertyNotify, ReparentNotify, ScreenResponse,
    SelectionClear, SelectionNotify, SelectionReq, UnmapNotify, VisualResponse,
};
use crate::display::xid::Xid;
use crate::extension::xinerama::Xinerama;
use crate::extension::Extension;
use crate::keyboard::{charset_of, latin1_of, CharacterSet, Keysym};
use crate::proto::{
    error_code_of, is_pending, oldest_pending, ErrorCode, Opcode, Queue, Reply, ReplyKind, Request,
    Sequence,
    SequenceManager, Button, ClientMessageData, Coordinates, EnterMode, Event, EventKind, FocusDetail, FocusMode,
    Place, PropertyState, Response, StackMode, VisualClass,
};
use crate::window::{ConfigureValue, Window};

verus! {

/// A server-interned name, by its 32-bit id; id 0 is the null atom.
#[derive(Debug, Clone, Copy, PartialEq, Eq, PartialOrd, Ord, Hash, Structural)]
pub struct Atom {
    pub id: u32,
}

/// The ids of the atoms that every server predefines.
#[non_exhaustive]
pub struct Predefined;

impl Predefined {
    /// Stands for "any property type" where a type is asked for; it is the null atom.
    pub const ANY_PROPERTY_TYPE: u32 = 0;
    pub const PRIMARY: u32 = 1;
    pub const SECONDARY: u32 = 2;
    pub const ARC: u32 = 3;
    pub const ATOM: u32 = 4;
    pub const BITMAP: u32 = 5;
    pub const CARDINAL: u32 = 6;
    pub const COLORMAP: u32 = 7;
    pub const CURSOR: u32 = 8;
    pub const CUT_BUFFER0: u32 = 9;
    pub const CUT_BUFFER1: u32 = 10;
    pub const CUT_BUFFER2: u32 = 11;
    pub const CUT_BUFFER3: u32 = 12;
    pub const CUT_BUFFER4: u32 = 13;
    pub const CUT_BUFFER5: u32 = 14;
    pub const CUT_BUFFER6: u32 = 15;
    pub const CUT_BUFFER7: u32 = 16;
    pub const DRAWABLE: u32 = 17;
    pub const FONT: u32 = 18;
    pub const INTEGER: u32 = 19;
    pub const PIXMAP: u32 = 20;
    pub const STRING: u32 = 31;
    pub const WINDOW: u32 = 33;
}

impl Atom {
    pub fn new(id: u32) -> (r: Atom)
        ensures
            r.id == id,
    {
        Atom { id }
    }

    pub fn id(&self) -> (r: u32)
        ensures
            r == self.id,
    {
        self.id
    }

    pub fn is_null(&self) -> (r: bool)
        ensures
            r == (self.id == 0),
    {
        self.id == 0
    }
}

} // verus!

verus! {

/// A visual of a screen.
#[derive(Debug, Clone, Copy, PartialEq, Eq, Structural)]
pub struct Visual {
    pub id: u32,
    pub class: VisualClass,
}

impl Visual {
    pub fn new(response: VisualResponse) -> (r: Visual)
        ensures
            r.id == response.visual_id,
            r.class == VisualClass::from_spec(response.class),
    {
        Visual { id: response.visual_id, class: VisualClass::from(response.class) }
    }
}

/// A depth of a screen, with its visuals.
#[derive(Debug, Clone)]
pub struct Depth {
    pub depth: u8,
    pub length: u16,
    pub visuals: Vec<Visual>,
}

impl Depth {
    pub fn new(response: DepthResponse) -> (r: Depth)
        ensures
            r.depth == response.depth,
            r.length == response.visuals_len,
            r.visuals@ == Seq::<Visual>::empty(),
    {
        Depth { depth: response.depth, length: response.visuals_len, visuals: Vec::new() }
    }

    /// Appends one visual for each record.
    pub fn extend(&mut self, responses: &[VisualResponse])
        ensures
            final(self).depth == old(self).depth,
            final(self).length == old(self).length,
            final(self).visuals@.len() == old(self).visuals@.len() + responses@.len(),
            forall|i: int|
                0 <= i < old(self).visuals@.len() ==> final(self).visuals@[i] == old(self).visuals@[i],
            forall|i: int|
                0 <= i < responses@.len() ==> {
                    let v = #[trigger] final(self).visuals@[old(self).visuals@.len() + i];
                    v.id == responses@[i].visual_id && v.class == VisualClass::from_spec(
                        responses@[i].class,
                    )
                },
    {
        let mut i: usize = 0;
        while i < responses.len()
            invariant
                i <= responses@.len(),
                self.depth == old(self).depth,
                self.length == old(self).length,
                self.visuals@.len() == old(self).visuals@.len() + i,
                forall|k: int|
                    0 <= k < old(self).visuals@.len() ==> self.visuals@[k] == old(self).visuals@[k],
                forall|k: int|
                    0 <= k < i ==> {
                        let v = #[trigger] self.visuals@[old(self).visuals@.len() + k];
                        v.id == responses@[k].visual_id && v.class == VisualClass::from_spec(
                            responses@[k].class,
                        )
                    },
            decreases responses@.len() - i,
        {
            let visual = Visual::new(responses[i]);
            self.visuals.push(visual);
            i = i + 1;
        }
    }
}

/// The range of keycodes that the server uses.
#[derive(Debug, Clone, Copy, PartialEq, Eq, Structural)]
pub struct KeycodeRange {
    pub min: u8,
    pub max: u8,
}

impl KeycodeRange {
    pub fn new(min: u8, max: u8) -> (r: KeycodeRange)
        ensures
            r == (KeycodeRange { min, max }),
    {
        KeycodeRange { min, max }
    }
}

/// A screen of the display, with its depths.
#[derive(Debug, Clone)]
pub struct Screen {
    pub response: ScreenResponse,
    pub depths: Vec<Depth>,
}

impl Screen {
    pub fn new(response: ScreenResponse) -> (r: Screen)
        ensures
            r.response == response,
            r.depths@ == Seq::<Depth>::empty(),
    {
        Screen { response, depths: Vec::new() }
    }
}

/// Whether the visual with this id is listed at screen `s`, depth `d`, place `k`.
pub open spec fn visual_at(roots: Seq<Screen>, s: int, d: int, k: int, id: u32) -> bool {
    &&& 0 <= s < roots.len()
    &&& 0 <= d < roots[s].depths@.len()
    &&& 0 <= k < roots[s].depths@[d].visuals@.len()
    &&& roots[s].depths@[d].visuals@[k].id == id
}

/// The screens of the display; the first is the default screen.
#[derive(Debug, Clone)]
pub struct Roots {
    pub roots: Vec<Screen>,
}

impl Roots {
    pub fn new() -> (r: Roots)
        ensures
            r.roots@ == Seq::<Screen>::empty(),
    {
        Roots { roots: Vec::new() }
    }

    /// The default screen.
    pub fn first(&self) -> (r: Result<&Screen, Error>)
        ensures
            self.roots@.len() > 0 ==> r == Ok::<&Screen, Error>(&self.roots@[0]),
            self.roots@.len() == 0 ==> r == Err::<&Screen, Error>(Error::NoScreens),
    {
        if self.roots.len() > 0 {
            Ok(&self.roots[0])
        } else {
            Err(Error::NoScreens)
        }
    }

    /// The visual with this id, from any screen and depth.
    pub fn visual_from_id(&self, id: u32) -> (r: Result<Visual, Error>)
        ensures
            r is Ok <==> exists|s: int, d: int, k: int| visual_at(self.roots@, s, d, k, id),
            r is Ok ==> exists|s: int, d: int, k: int|
                visual_at(self.roots@, s, d, k, id) && r == Ok::<Visual, Error>(
                    self.roots@[s].depths@[d].visuals@[k],
                ),
            r is Err ==> r == Err::<Visual, Error>(Error::InvalidId),
    {
        let mut s: usize = 0;
        while s < self.roots.len()
            invariant
                s <= self.roots@.len(),
                forall|s2: int, d: int, k: int|
                    0 <= s2 < s ==> !visual_at(self.roots@, s2, d, k, id),
            decreases self.roots@.len() - s,
        {
            let screen = &self.roots[s];
            let mut d: usize = 0;
            while d < screen.depths.len()
                invariant
                    s < self.roots@.len(),
                    *screen == self.roots@[s as int],
                    d <= screen.depths@.len(),
                    forall|s2: int, d2: int, k: int|
                        0 <= s2 < s ==> !visual_at(self.roots@, s2, d2, k, id),
                    forall|d2: int, k: int|
                        0 <= d2 < d ==> !visual_at(self.roots@, s as int, d2, k, id),
                decreases screen.depths@.len() - d,
            {
                let depth = &screen.depths[d];
                let mut k: usize = 0;
                while k < depth.visuals.len()
                    invariant
                        s < self.roots@.len(),
                        *screen == self.roots@[s as int],
                        d < screen.depths@.len(),
                        *depth == screen.depths@[d as int],
                        k <= depth.visuals@.len(),
                        forall|s2: int, d2: int, k2: int|
                            0 <= s2 < s ==> !visual_at(self.roots@, s2, d2, k2, id),
                        forall|d2: int, k2: int|
                            0 <= d2 < d ==> !visual_at(self.roots@, s as int, d2, k2, id),
                        forall|k2: int|
                            0 <= k2 < k ==> !visual_at(
                                self.roots@,
                                s as int,
                                d as int,
                                k2,
                                id,
                            ),
                    decreases depth.visuals@.len() - k,
                {
                    if depth.visuals[k].id == id {
                        assert(visual_at(self.roots@, s as int, d as int, k as int, id));
                        return Ok(depth.visuals[k]);
                    }
                    k = k + 1;
                }
                d = d + 1;
            }
            s = s + 1;
        }
        Err(Error::InvalidId)
    }

    pub fn push(&mut self, screen: Screen)
        ensures
            final(self).roots@ == old(self).roots@.push(screen),
    {
        self.roots.push(screen);
    }
}

} // verus!

verus! {

/// `v` alone when `c` holds, else nothing.
pub open spec fn opt<T>(c: bool, v: T) -> Seq<T> {
    if c {
        seq![v]
    } else {
        Seq::empty()
    }
}

/// Whether the bit of value `unit` (a power of two) is set in `m`.
pub open spec fn bit(m: u16, unit: int) -> bool {
    (m as int / unit) % 2 == 1
}

/// The values that a redirected ConfigureWindow carries, in ascending order of their bits.
pub open spec fn configure_values(r: ConfigReq, stack_mode: u8) -> Seq<ConfigureValue> {
    let m = r.value_mask;
    opt(bit(m, 1), ConfigureValue::X(r.x)) + opt(bit(m, 2), ConfigureValue::Y(r.y)) + opt(
        bit(m, 4),
        ConfigureValue::Width(r.width),
    ) + opt(bit(m, 8), ConfigureValue::Height(r.height)) + opt(
        bit(m, 16),
        ConfigureValue::Border(r.border_width),
    ) + opt(bit(m, 32), ConfigureValue::Sibling(r.sibling)) + opt(
        bit(m, 64),
        ConfigureValue::StackMode(StackMode::from_spec(stack_mode)),
    )
}

/// Whether a record code (without its send-event bit) names an event that is decoded.
pub open spec fn is_event_code(code: u8) -> bool {
    (2 <= code <= 7) || code == 9 || code == 10 || (16 <= code <= 24) || (26 <= code <= 28) || (29
        <= code <= 31) || code == 33 || code == 34
}

/// Whether `e` is the event that the 32-byte record `b` holds.
pub open spec fn event_matches(b: Seq<u8>, order: ByteOrder, e: Event) -> bool {
    let code = (b[0] % 128) as u8;
    let sent = b[0] >= 128;
    if code == Response::KEY_PRESS || code == Response::KEY_RELEASE {
        let k = KeyEvent::spec_decode(b, order);
        e == Event::KeyEvent {
            kind: if code == Response::KEY_PRESS {
                EventKind::Press
            } else {
                EventKind::Release
            },
            coordinates: Coordinates { x: k.event_x, y: k.event_y, root_x: k.root_x, root_y: k.root_y },
            window: k.event,
            root: k.root,
            subwindow: k.child,
            state: k.state,
            keycode: b[1],
            send_event: sent,
        }
    } else if code == Response::BUTTON_PRESS || code == Response::BUTTON_RELEASE {
        let k = ButtonEvent::spec_decode(b, order);
        e == Event::ButtonEvent {
            kind: if code == Response::BUTTON_PRESS {
                EventKind::Press
            } else {
                EventKind::Release
            },
            coordinates: Coordinates { x: k.event_x, y: k.event_y, root_x: k.root_x, root_y: k.root_y },
            window: k.event,
            root: k.root,
            subwindow: k.child,
            state: k.state,
            button: Button::from_spec(b[1]),
            send_event: sent,
        }
    } else if code == Response::MOTION_NOTIFY {
        let k = ButtonEvent::spec_decode(b, order);
        e == Event::MotionNotify {
            coordinates: Coordinates { x: k.event_x, y: k.event_y, root_x: k.root_x, root_y: k.root_y },
            window: k.event,
            root: k.root,
            subwindow: k.child,
            state: k.state,
            send_event: sent,
        }
    } else if code == Response::ENTER_NOTIFY {
        let k = EnterNotify::spec_decode(b, order);
        e == Event::EnterNotify {
            root: k.root,
            window: k.event,
            child: k.child,
            coordinates: Coordinates { x: k.event_x, y: k.event_y, root_x: k.root_x, root_y: k.root_y },
            state: k.state,
            mode: EnterMode::from_spec(k.mode),
            focus: k.sf % 2 == 1,
            same_screen: (k.sf / 2) % 2 == 1,
        }
    } else if code == Response::FOCUS_IN {
        let k = FocusIn::spec_decode(b, order);
        e == Event::FocusIn {
            detail: FocusDetail::from_spec(b[1]),
            mode: FocusMode::from_spec(k.mode),
            window: k.event,
        }
    } else if code == Response::FOCUS_OUT {
        let k = FocusOut::spec_decode(b, order);
        e == Event::FocusOut {
            detail: FocusDetail::from_spec(b[1]),
            mode: FocusMode::from_spec(k.mode),
            window: k.event,
        }
    } else if code == Response::CREATE_NOTIFY {
        let k = CreateNotify::spec_decode(b, order);
        e == Event::CreateNotify {
            parent: k.event,
            window: k.window,
            x: k.x,
            y: k.y,
            width: k.width,
            height: k.height,
        }
    } else if code == Response::DESTROY_NOTIFY {
        let k = DestroyNotify::spec_decode(b, order);
        e == Event::DestroyNotify { event: k.event, window: k.window }
    } else if code == Response::UNMAP_NOTIFY {
        let k = UnmapNotify::spec_decode(b, order);
        e == Event::UnmapNotify { event: k.event, window: k.window, configure: k.from_configure != 0 }
    } else if code == Response::MAP_NOTIFY {
        let k = MapNotify::spec_decode(b, order);
        e == Event::MapNotify {
            event: k.event,
            window: k.window,
            override_redirect: k.override_redirect != 0,
        }
    } else if code == Response::MAP_REQUEST {
        let k = MapReq::spec_decode(b, order);
        e == Event::MapRequest { parent: k.parent, window: k.window }
    } else if code == Response::REPARENT_NOTIFY {
        let k = ReparentNotify::spec_decode(b, order);
        e == Event::ReparentNotify {
            event: k.event,
            window: k.window,
            parent: k.parent,
            x: k.x,
            y: k.y,
            override_redirect: k.override_redirect != 0,
        }
    } else if code == Response::CONFIGURE_NOTIFY {
        let k = ConfigNotify::spec_decode(b, order);
        e == Event::ConfigureNotify {
            event: k.event,
            window: k.window,
            above_sibling: k.above_sibling,
            x: k.x,
            y: k.y,
            width: k.width,
            height: k.height,
            border_width: k.border_width,
            override_redirect: k.override_redirect != 0,
        }
    } else if code == Response::CONFIGURE_REQUEST {
        let k = ConfigReq::spec_decode(b, order);
        match e {
            Event::ConfigureRequest { window, values } => window == k.window && values@
                == configure_values(k, b[1]),
            _ => false,
        }
    } else if code == Response::GRAVITY_NOTIFY {
        let k = GravityNotify::spec_decode(b, order);
        e == Event::GravityNotify { event: k.event, window: k.window, x: k.x, y: k.y }
    } else if code == Response::CIRCULATE_NOTIFY {
        let k = CircNotify::spec_decode(b, order);
        e == Event::CirculateNotify {
            event: k.event,
            window: k.window,
            place: Place::from_spec(k.place),
        }
    } else if code == Response::CIRCULATE_REQUEST {
        let k = CircNotify::spec_decode(b, order);
        e == Event::CirculateRequest {
            parent: k.event,
            window: k.window,
            place: Place::from_spec(k.place),
        }
    } else if code == Response::PROPERTY_NOTIFY {
        let k = PropertyNotify::spec_decode(b, order);
        e == Event::PropertyNotify {
            window: k.window,
            atom: Atom { id: k.atom },
            time: k.time,
            state: PropertyState::from_spec(k.state),
        }
    } else if code == Response::SELECTION_CLEAR {
        let k = SelectionClear::spec_decode(b, order);
        e == Event::SelectionClear {
            time: k.time,
            owner: k.owner,
            selection: Atom { id: k.selection },
        }
    } else if code == Response::SELECTION_REQUEST {
        let k = SelectionReq::spec_decode(b, order);
        e == Event::SelectionRequest {
            time: k.time,
            owner: k.requestor,
            selection: Atom { id: k.selection },
            target: Atom { id: k.target },
            property: Atom { id: k.property },
        }
    } else if code == Response::SELECTION_NOTIFY {
        let k = SelectionNotify::spec_decode(b, order);
        e == Event::SelectionNotify {
            time: k.time,
            requestor: k.requestor,
            selection: Atom { id: k.selection },
            target: Atom { id: k.target },
            property: Atom { id: k.property },
        }
    } else if code == Response::CLIENT_MESSAGE {
        let k = ClientMessage::spec_decode(b, order);
        match e {
            Event::ClientMessage { format, window, type_, data } => format == b[1] && window
                == k.window && type_ == Atom { id: k.type_ } && match data {
                ClientMessageData::Byte(bytes) => bytes@ == b.subrange(12, 32),
                _ => false,
            },
            _ => false,
        }
    } else if code == Response::MAPPING_NOTIFY {
        let k = MappingNotify::spec_decode(b, order);
        e == Event::MappingNotify { request: k.request, keycode: k.keycode, count: k.count }
    } else {
        false
    }
}

/// Appends `v` when `c` holds.
fn push_if(values: &mut Vec<ConfigureValue>, c: bool, v: ConfigureValue)
    ensures
        final(values)@ == old(values)@ + opt(c, v),
{
    if c {
        values.push(v);
    }
    assert(values@ =~= old(values)@ + opt(c, v));
}

/// The values of a redirected ConfigureWindow.
fn decode_configure_values(r: &ConfigReq, stack_mode: u8) -> (values: Vec<ConfigureValue>)
    ensures
        values@ == configure_values(*r, stack_mode),
{
    let m = r.value_mask;
    let mut values: Vec<ConfigureValue> = Vec::new();
    push_if(&mut values, m % 2 == 1, ConfigureValue::X(r.x));
    assert(values@ =~= opt(bit(m, 1), ConfigureValue::X(r.x)));
    push_if(&mut values, (m / 2) % 2 == 1, ConfigureValue::Y(r.y));
    push_if(&mut values, (m / 4) % 2 == 1, ConfigureValue::Width(r.width));
    push_if(&mut values, (m / 8) % 2 == 1, ConfigureValue::Height(r.height));
    push_if(&mut values, (m / 16) % 2 == 1, ConfigureValue::Border(r.border_width));
    push_if(&mut values, (m / 32) % 2 == 1, ConfigureValue::Sibling(r.sibling));
    let mode = StackMode::from(stack_mode);
    push_if(&mut values, (m / 64) % 2 == 1, ConfigureValue::StackMode(mode));
    values
}

/// The 20 data bytes of a client message record.
fn client_message_bytes(b: &[u8]) -> (data: [u8; 20])
    requires
        b@.len() >= 32,
    ensures
        data@ == b@.subrange(12, 32),
{
    let mut data = [0u8; 20];
    let mut i: usize = 0;
    while i < 20
        invariant
            i <= 20,
            b@.len() >= 32,
            data@.len() == 20,
            forall|k: int| 0 <= k < i ==> data@[k] == b@[12 + k],
        decreases 20 - i,
    {
        data[i] = b[12 + i];
        i = i + 1;
    }
    assert(data@ =~= b@.subrange(12, 32));
    data
}

/// The event that a 32-byte record holds, or `None` for a code that is not decoded.
pub fn decode_event(b: &[u8], order: ByteOrder) -> (r: Option<Event>)
    requires
        b@.len() >= 32,
    ensures
        match r {
            Some(e) => is_event_code((b@[0] % 128) as u8) && event_matches(b@, order, e),
            None => !is_event_code((b@[0] % 128) as u8),
        },
{
    let code = b[0] % 128;
    let sent = b[0] >= 128;
    if code == Response::KEY_PRESS || code == Response::KEY_RELEASE {
        let k = KeyEvent::decode(b, order);
        Some(
            Event::KeyEvent {
                kind: if code == Response::KEY_PRESS {
                    EventKind::Press
                } else {
                    EventKind::Release
                },
                coordinates: Coordinates::new(k.event_x, k.event_y, k.root_x, k.root_y),
                window: k.event,
                root: k.root,
                subwindow: k.child,
                state: k.state,
                keycode: b[1],
                send_event: sent,
            },
        )
    } else if code == Response::BUTTON_PRESS || code == Response::BUTTON_RELEASE {
        let k = ButtonEvent::decode(b, order);
        Some(
            Event::ButtonEvent {
                kind: if code == Response::BUTTON_PRESS {
                    EventKind::Press
                } else {
                    EventKind::Release
                },
                coordinates: Coordinates::new(k.event_x, k.event_y, k.root_x, k.root_y),
                window: k.event,
                root: k.root,
                subwindow: k.child,
                state: k.state,
                button: Button::from(b[1]),
                send_event: sent,
            },
        )
    } else if code == Response::MOTION_NOTIFY {
        let k = ButtonEvent::decode(b, order);
        Some(
            Event::MotionNotify {
                coordinates: Coordinates::new(k.event_x, k.event_y, k.root_x, k.root_y),
                window: k.event,
                root: k.root,
                subwindow: k.child,
                state: k.state,
                send_event: sent,
            },
        )
    } else if code == Response::ENTER_NOTIFY {
        let k = EnterNotify::decode(b, order);
        Some(
            Event::EnterNotify {
                root: k.root,
                window: k.event,
                child: k.child,
                coordinates: Coordinates::new(k.event_x, k.event_y, k.root_x, k.root_y),
                state: k.state,
                mode: EnterMode::from(k.mode),
                focus: k.sf % 2 == 1,
                same_screen: (k.sf / 2) % 2 == 1,
            },
        )
    } else if code == Response::FOCUS_IN {
        let k = FocusIn::decode(b, order);
        Some(
            Event::FocusIn {
                detail: FocusDetail::from(b[1]),
                mode: FocusMode::from(k.mode),
                window: k.event,
            },
        )
    } else if code == Response::FOCUS_OUT {
        let k = FocusOut::decode(b, order);
        Some(
            Event::FocusOut {
                detail: FocusDetail::from(b[1]),
                mode: FocusMode::from(k.mode),
                window: k.event,
            },
        )
    } else if code == Response::CREATE_NOTIFY {
        let k = CreateNotify::decode(b, order);
        Some(
            Event::CreateNotify {
                parent: k.event,
                window: k.window,
                x: k.x,
                y: k.y,
                width: k.width,
                height: k.height,
            },
        )
    } else if code == Response::DESTROY_NOTIFY {
        let k = DestroyNotify::decode(b, order);
        Some(Event::DestroyNotify { event: k.event, window: k.window })
    } else if code == Response::UNMAP_NOTIFY {
        let k = UnmapNotify::decode(b, order);
        Some(
            Event::UnmapNotify {
                event: k.event,
                window: k.window,
                configure: k.from_configure != 0,
            },
        )
    } else if code == Response::MAP_NOTIFY {
        let k = MapNotify::decode(b, order);
        Some(
            Event::MapNotify {
                event: k.event,
                window: k.window,
                override_redirect: k.override_redirect != 0,
            },
        )
    } else if code == Response::MAP_REQUEST {
        let k = MapReq::decode(b, order);
        Some(Event::MapRequest { parent: k.parent, window: k.window })
    } else if code == Response::REPARENT_NOTIFY {
        let k = ReparentNotify::decode(b, order);
        Some(
            Event::ReparentNotify {
                event: k.event,
                window: k.window,
                parent: k.parent,
                x: k.x,
                y: k.y,
                override_redirect: k.override_redirect != 0,
            },
        )
    } else if code == Response::CONFIGURE_NOTIFY {
        let k = ConfigNotify::decode(b, order);
        Some(
            Event::ConfigureNotify {
                event: k.event,
                window: k.window,
                above_sibling: k.above_sibling,
                x: k.x,
                y: k.y,
                width: k.width,
                height: k.height,
                border_width: k.border_width,
                override_redirect: k.override_redirect != 0,
            },
        )
    } else if code == Response::CONFIGURE_REQUEST {
        let k = ConfigReq::decode(b, order);
        let values = decode_configure_values(&k, b[1]);
        Some(Event::ConfigureRequest { window: k.window, values })
    } else if code == Response::GRAVITY_NOTIFY {
        let k = GravityNotify::decode(b, order);
        Some(Event::GravityNotify { event: k.event, window: k.window, x: k.x, y: k.y })
    } else if code == Response::CIRCULATE_NOTIFY {
        let k = CircNotify::decode(b, order);
        Some(Event::CirculateNotify { event: k.event, window: k.window, place: Place::from(k.place) })
    } else if code == Response::CIRCULATE_REQUEST {
        let k = CircNotify::decode(b, order);
        Some(
            Event::CirculateRequest { parent: k.event, window: k.window, place: Place::from(k.place) },
        )
    } else if code == Response::PROPERTY_NOTIFY {
        let k = PropertyNotify::decode(b, order);
        Some(
            Event::PropertyNotify {
                window: k.window,
                atom: Atom::new(k.atom),
                time: k.time,
                state: PropertyState::from(k.state),
            },
        )
    } else if code == Response::SELECTION_CLEAR {
        let k = SelectionClear::decode(b, order);
        Some(
            Event::SelectionClear {
                time: k.time,
                owner: k.owner,
                selection: Atom::new(k.selection),
            },
        )
    } else if code == Response::SELECTION_REQUEST {
        let k = SelectionReq::decode(b, order);
        Some(
            Event::SelectionRequest {
                time: k.time,
                owner: k.requestor,
                selection: Atom::new(k.selection),
                target: Atom::new(k.target),
                property: Atom::new(k.property),
            },
        )
    } else if code == Response::SELECTION_NOTIFY {
        let k = SelectionNotify::decode(b, order);
        Some(
            Event::SelectionNotify {
                time: k.time,
                requestor: k.requestor,
                selection: Atom::new(k.selection),
                target: Atom::new(k.target),
                property: Atom::new(k.property),
            },
        )
    } else if code == Response::CLIENT_MESSAGE {
        let k = ClientMessage::decode(b, order);
        let data = client_message_bytes(b);
        Some(
            Event::ClientMessage {
                format: b[1],
                window: k.window,
                type_: Atom::new(k.type_),
                data: ClientMessageData::Byte(data),
            },
        )
    } else if code == Response::MAPPING_NOTIFY {
        let k = MappingNotify::decode(b, order);
        Some(Event::MappingNotify { request: k.request, keycode: k.keycode, count: k.count })
    } else {
        None
    }
}

} // verus!

verus! {

/// The number of value bytes that a GetProperty reply announces.
pub open spec fn property_len(b: Seq<u8>, order: ByteOrder) -> int {
    u32_at(order, b, 16) as int * (b[1] as int / 8)
}

/// Whether a reply record holds all that its fixed part announces.
pub open spec fn reply_fits(kind: ReplyKind, b: Seq<u8>, order: ByteOrder) -> bool {
    &&& b.len() >= 32
    &&& match kind {
        ReplyKind::GetWindowAttributes => b.len() >= 44,
        ReplyKind::GetProperty => 32 + property_len(b, order) <= b.len(),
        ReplyKind::GetKeyboardMapping => 32 + 4 * u32_at(order, b, 4) <= b.len(),
        ReplyKind::XineramaQueryScreens => 32 + 8 * u32_at(order, b, 8) <= b.len(),
        _ => true,
    }
}

/// Whether `reply` is the reply of this kind that the record `b` holds.
pub open spec fn reply_matches(kind: ReplyKind, b: Seq<u8>, order: ByteOrder, reply: Reply) -> bool {
    match kind {
        ReplyKind::InternAtom => reply == Reply::InternAtom(
            InternAtomResponse::spec_decode(b, order),
        ),
        ReplyKind::GetWindowAttributes => reply == Reply::GetWindowAttributes(
            GetWindowAttributesResponse::spec_decode(b, order),
        ),
        ReplyKind::GetGeometry => reply == Reply::GetGeometry(
            GetGeometryResponse::spec_decode(b, order),
        ),
        ReplyKind::QueryPointer => reply == Reply::QueryPointer(
            QueryPointerResponse::spec_decode(b, order),
        ),
        ReplyKind::GetInputFocus => reply == Reply::GetInputFocus(
            GetInputFocusResponse::spec_decode(b, order),
        ),
        ReplyKind::GrabPointer => reply == Reply::GrabPointer(
            GrabPointerResponse::spec_decode(b, order),
        ),
        ReplyKind::QueryExtension => reply == Reply::QueryExtension(
            QueryExtensionResponse::spec_decode(b, order),
        ),
        ReplyKind::GetSelectionOwner => reply == Reply::GetSelectionOwner(
            GetSelectionOwnerResponse::spec_decode(b, order),
        ),
        ReplyKind::XineramaIsActive => reply == Reply::XineramaIsActive(
            XineramaIsActiveResponse::spec_decode(b, order),
        ),
        ReplyKind::GetProperty => match reply {
            Reply::GetProperty { type_, format, value } => type_ == Atom {
                id: u32_at(order, b, 8),
            } && format == b[1] && value@ == b.subrange(32, 32 + property_len(b, order)),
            _ => false,
        },
        ReplyKind::GetKeyboardMapping => match reply {
            Reply::GetKeyboardMapping { keysyms, keysyms_per_keycode } => keysyms_per_keycode
                == b[1] && keysyms@.len() == u32_at(order, b, 4) && forall|i: int|
                0 <= i < keysyms@.len() ==> #[trigger] keysyms@[i].value == u32_at(
                    order,
                    b,
                    32 + 4 * i,
                ),
            _ => false,
        },
        ReplyKind::XineramaQueryScreens => match reply {
            Reply::XineramaQueryScreens { screens } => screens@.len() == u32_at(order, b, 8)
                && forall|i: int|
                0 <= i < screens@.len() ==> #[trigger] screens@[i] == XineramaScreenInfo::spec_decode(
                    b.subrange(32 + 8 * i, 40 + 8 * i),
                    order,
                ),
            _ => false,
        },
    }
}

/// The reply of the given kind that the record holds.
pub fn decode_reply(kind: ReplyKind, b: &[u8], order: ByteOrder) -> (r: Reply)
    requires
        reply_fits(kind, b@, order),
    ensures
        reply_matches(kind, b@, order, r),
{
    let len = b.len();
    match kind {
        ReplyKind::InternAtom => Reply::InternAtom(InternAtomResponse::decode(b, order)),
        ReplyKind::GetWindowAttributes => Reply::GetWindowAttributes(
            GetWindowAttributesResponse::decode(b, order),
        ),
        ReplyKind::GetGeometry => Reply::GetGeometry(GetGeometryResponse::decode(b, order)),
        ReplyKind::QueryPointer => Reply::QueryPointer(QueryPointerResponse::decode(b, order)),
        ReplyKind::GetInputFocus => Reply::GetInputFocus(GetInputFocusResponse::decode(b, order)),
        ReplyKind::GrabPointer => Reply::GrabPointer(GrabPointerResponse::decode(b, order)),
        ReplyKind::QueryExtension => Reply::QueryExtension(
            QueryExtensionResponse::decode(b, order),
        ),
        ReplyKind::GetSelectionOwner => Reply::GetSelectionOwner(
            GetSelectionOwnerResponse::decode(b, order),
        ),
        ReplyKind::XineramaIsActive => Reply::XineramaIsActive(
            XineramaIsActiveResponse::decode(b, order),
        ),
        ReplyKind::GetProperty => {
            let count = get_u32(b, 16, order) as u64;
            let unit = (b[1] / 8) as u64;
            assert(count * unit <= 0xffff_ffff * 31) by (nonlinear_arith)
                requires
                    count <= 0xffff_ffff,
                    unit <= 31,
            ;
            let n = (count * unit) as usize;
            let mut value: Vec<u8> = Vec::new();
            let mut i: usize = 0;
            while i < n
                invariant
                    n == property_len(b@, order),
                    32 + property_len(b@, order) <= b@.len(),
                    len == b@.len(),
                    i <= n,
                    value@ == b@.subrange(32, 32 + i),
                decreases n - i,
            {
                value.push(b[32 + i]);
                i = i + 1;
                assert(value@ =~= b@.subrange(32, 32 + i));
            }
            Reply::GetProperty { type_: Atom::new(get_u32(b, 8, order)), format: b[1], value }
        },
        ReplyKind::GetKeyboardMapping => {
            let n = get_u32(b, 4, order) as usize;
            let mut keysyms: Vec<Keysym> = Vec::new();
            let mut i: usize = 0;
            while i < n
                invariant
                    n == u32_at(order, b@, 4),
                    32 + 4 * n <= b@.len(),
                    len == b@.len(),
                    i <= n,
                    keysyms@.len() == i,
                    forall|k: int|
                        0 <= k < i ==> #[trigger] keysyms@[k].value == u32_at(
                            order,
                            b@,
                            32 + 4 * k,
                        ),
                decreases n - i,
            {
                keysyms.push(Keysym::new(get_u32(b, 32 + 4 * i, order)));
                i = i + 1;
            }
            Reply::GetKeyboardMapping { keysyms, keysyms_per_keycode: b[1] }
        },
        ReplyKind::XineramaQueryScreens => {
            let n = get_u32(b, 8, order) as usize;
            let mut screens: Vec<XineramaScreenInfo> = Vec::new();
            let mut i: usize = 0;
            while i < n
                invariant
                    n == u32_at(order, b@, 8),
                    32 + 8 * n <= b@.len(),
                    len == b@.len(),
                    i <= n,
                    screens@.len() == i,
                    forall|k: int|
                        0 <= k < i ==> #[trigger] screens@[k] == XineramaScreenInfo::spec_decode(
                            b@.subrange(32 + 8 * k, 40 + 8 * k),
                            order,
                        ),
                decreases n - i,
            {
                let at = 32 + 8 * i;
                let info = XineramaScreenInfo {
                    x: #[verifier::truncate] (get_u16(b, at, order) as i16),
                    y: #[verifier::truncate] (get_u16(b, at + 2, order) as i16),
                    width: get_u16(b, at + 4, order),
                    height: get_u16(b, at + 6, order),
                };
                assert(info == XineramaScreenInfo::spec_decode(
                    b@.subrange(at as int, at + 8),
                    order,
                ));
                screens.push(info);
                i = i + 1;
            }
            Reply::XineramaQueryScreens { screens }
        },
    }
}

/// The protocol error that an error record reports.
pub open spec fn error_of(b: Seq<u8>, order: ByteOrder) -> Error {
    Error::Event {
        error: error_code_of(b[1]),
        major_opcode: b[10],
        minor_opcode: u16_at(order, b, 8),
        bad_value: u32_at(order, b, 4),
        sequence: u16_at(order, b, 2),
    }
}

/// How `pending` changes when the record for sequence `id` arrives: the oldest request
/// waiting on it is resolved, if there is one.
pub open spec fn resolved(before: Seq<Sequence>, after: Seq<Sequence>, id: u16) -> bool {
    if is_pending(before, id) {
        exists|i: int| oldest_pending(before, id, i) && after == before.remove(i)
    } else {
        after == before
    }
}

/// A request that alone waits on its number is resolved once: after the reply or error for
/// that number nothing waits on it, so another record with that number is refused as
/// `Error::InvalidId` by `handle_reply`.
pub proof fn lemma_resolved_once(before: Seq<Sequence>, after: Seq<Sequence>, id: u16)
    requires
        is_pending(before, id),
        resolved(before, after, id),
        forall|i: int, j: int|
            0 <= i < before.len() && 0 <= j < before.len() && #[trigger] before[i].id == id
                && #[trigger] before[j].id == id ==> i == j,
    ensures
        !is_pending(after, id),
        after.len() == before.len() - 1,
{
    let i = choose|i: int| oldest_pending(before, id, i) && after == before.remove(i);
    assert forall|k: int| 0 <= k < after.len() implies after[k].id != id by {
        if k < i {
            assert(after[k] == before[k]);
        } else {
            assert(after[k] == before[k + 1]);
        }
    }
}

/// Routes the records that the server sends: replies to the waiting requests, errors to the
/// error channel, events to the event queue.
pub struct EventListener {
    pub order: ByteOrder,
    pub sequence: SequenceManager,
    pub replies: Queue<Reply>,
    pub events: Queue<Event>,
}

impl EventListener {
    pub fn new(order: ByteOrder) -> (r: EventListener)
        ensures
            r.order == order,
            r.sequence.id == 0,
            r.sequence.sequences@ == Seq::<Sequence>::empty(),
            r.replies.items@ == Seq::<Reply>::empty(),
            r.replies.errors@ == Seq::<Error>::empty(),
            r.replies.failed is None,
            r.events.items@ == Seq::<Event>::empty(),
            r.events.errors@ == Seq::<Error>::empty(),
            r.events.failed is None,
    {
        EventListener {
            order,
            sequence: SequenceManager::new(),
            replies: Queue::new(),
            events: Queue::new(),
        }
    }

    /// How many bytes of a record follow its first 32: a reply's length field counts them
    /// in units of four.
    pub fn extra_len(&self, b: &[u8]) -> (r: u64)
        requires
            b@.len() >= 32,
        ensures
            r == if b@[0] % 128 == 1 {
                4 * u32_at(self.order, b@, 4)
            } else {
                0
            },
    {
        if b[0] % 128 == 1 {
            4 * (get_u32(b, 4, self.order) as u64)
        } else {
            0
        }
    }

    /// Hands a reply record to the request that waits on its sequence. A record that
    /// announces more than it holds is delivered as `Error::InvalidReply`; a sequence that
    /// nothing waits on is a fatal protocol violation.
    pub fn handle_reply(&mut self, b: &[u8]) -> (r: Result<(), Error>)
        requires
            old(self).replies.items@.len() < usize::MAX,
            b@.len() >= 32,
        ensures
            ({
                let id = u16_at(old(self).order, b@, 2);
                let pending = old(self).sequence.sequences@;
                &&& final(self).order == old(self).order
                &&& final(self).sequence.id == old(self).sequence.id
                &&& final(self).events.items@ == old(self).events.items@
                &&& final(self).events.errors@ == old(self).events.errors@
                &&& final(self).events.failed == old(self).events.failed
                &&& final(self).replies.failed == old(self).replies.failed
                &&& (r is Ok <==> is_pending(pending, id))
                &&& r is Err ==> r == Err::<(), Error>(Error::InvalidId)
                    && final(self).sequence.sequences@ == pending && final(self).replies.items@
                    == old(self).replies.items@ && final(self).replies.errors@ == old(
                    self).replies.errors@
                &&& r is Ok ==> exists|i: int|
                    {
                        &&& #[trigger] oldest_pending(pending, id, i)
                        &&& final(self).sequence.sequences@ == pending.remove(i)
                        &&& if reply_fits(pending[i].kind, b@, old(self).order) {
                            &&& final(self).replies.items@.drop_last() == old(self).replies.items@
                            &&& final(self).replies.items@.len() == old(self).replies.items@.len() + 1
                            &&& reply_matches(
                                pending[i].kind,
                                b@,
                                old(self).order,
                                final(self).replies.items@.last(),
                            )
                            &&& final(self).replies.errors@ == old(self).replies.errors@
                        } else {
                            &&& final(self).replies.items@ == old(self).replies.items@
                            &&& final(self).replies.errors@ == old(self).replies.errors@.push(
                                Error::InvalidReply,
                            )
                        }
                    }
            }),
    {
        let id = get_u16(b, 2, self.order);
        let sequence = self.sequence.get(id)?;
        let fits = match sequence.kind {
            ReplyKind::GetWindowAttributes => b.len() >= 44,
            ReplyKind::GetProperty => {
                let count = get_u32(b, 16, self.order) as u64;
                let unit = (b[1] / 8) as u64;
                assert(count * unit <= 0xffff_ffff * 31) by (nonlinear_arith)
                    requires
                        count <= 0xffff_ffff,
                        unit <= 31,
                ;
                32 + count * unit <= b.len() as u64
            },
            ReplyKind::GetKeyboardMapping => 32 + 4 * (get_u32(b, 4, self.order) as u64)
                <= b.len() as u64,
            ReplyKind::XineramaQueryScreens => 32 + 8 * (get_u32(b, 8, self.order) as u64)
                <= b.len() as u64,
            _ => true,
        };
        if fits {
            let reply = decode_reply(sequence.kind, b, self.order);
            self.replies.push(reply);
            assert(self.replies.items@.drop_last() =~= old(self).replies.items@);
        } else {
            self.replies.post_error(Error::InvalidReply);
        }
        Ok(())
    }

    /// Routes one record of the server: `b` holds its first 32 bytes and, for a reply, the
    /// bytes that follow. Each reply or error resolves the oldest request waiting on its
    /// sequence, once; events go to the event queue; records of other codes are skipped.
    pub fn handle_event(&mut self, b: &[u8]) -> (r: Result<(), Error>)
        requires
            old(self).replies.items@.len() < usize::MAX,
            b@.len() >= 32,
        ensures
            ({
                let code = (b@[0] % 128) as u8;
                let id = u16_at(old(self).order, b@, 2);
                let pending = old(self).sequence.sequences@;
                &&& final(self).order == old(self).order
                &&& final(self).sequence.id == old(self).sequence.id
                &&& final(self).replies.failed == old(self).replies.failed
                &&& final(self).events.failed == old(self).events.failed
                &&& final(self).events.errors@ == old(self).events.errors@
                &&& code == Response::ERROR ==> {
                    &&& r is Ok
                    &&& resolved(pending, final(self).sequence.sequences@, id)
                    &&& final(self).replies.errors@ == old(self).replies.errors@.push(
                        error_of(b@, old(self).order),
                    )
                    &&& final(self).replies.items@ == old(self).replies.items@
                    &&& final(self).events.items@ == old(self).events.items@
                }
                &&& code == Response::REPLY ==> {
                    &&& (r is Ok <==> is_pending(pending, id))
                    &&& r is Ok ==> resolved(pending, final(self).sequence.sequences@, id)
                        && final(self).replies.items@.len() + final(self).replies.errors@.len()
                        == old(self).replies.items@.len() + old(self).replies.errors@.len() + 1
                    &&& r is Ok ==> exists|i: int|
                        {
                            &&& #[trigger] oldest_pending(pending, id, i)
                            &&& final(self).sequence.sequences@ == pending.remove(i)
                            &&& if reply_fits(pending[i].kind, b@, old(self).order) {
                                &&& final(self).replies.items@.drop_last() == old(
                                    self,
                                ).replies.items@
                                &&& reply_matches(
                                    pending[i].kind,
                                    b@,
                                    old(self).order,
                                    final(self).replies.items@.last(),
                                )
                                &&& final(self).replies.errors@ == old(self).replies.errors@
                            } else {
                                &&& final(self).replies.items@ == old(self).replies.items@
                                &&& final(self).replies.errors@ == old(
                                    self,
                                ).replies.errors@.push(Error::InvalidReply)
                            }
                        }
                    &&& r is Err ==> r == Err::<(), Error>(Error::InvalidId) && final(self).sequence.sequences@ == pending && final(self).replies.items@ == old(self).replies.items@ && final(self).replies.errors@ == old(self).replies.errors@
                    &&& final(self).events.items@ == old(self).events.items@
                }
                &&& code != Response::ERROR && code != Response::REPLY ==> {
                    &&& r is Ok
                    &&& final(self).sequence.sequences@ == pending
                    &&& final(self).replies.items@ == old(self).replies.items@
                    &&& final(self).replies.errors@ == old(self).replies.errors@
                    &&& is_event_code(code) ==> final(self).events.items@.drop_last() == old(self).events.items@ && final(self).events.items@.len() == old(self).events.items@.len() + 1 && event_matches(
                        b@,
                        old(self).order,
                        final(self).events.items@.last(),
                    )
                    &&& !is_event_code(code) ==> final(self).events.items@ == old(self).events.items@
                }
            }),
    {
        let code = b[0] % 128;
        if code == Response::ERROR {
            let header = GenericEvent::decode(b, self.order);
            let error = ErrorEvent::decode(b, self.order);
            let _ = self.sequence.get(header.sequence);
            self.replies.post_error(
                Error::Event {
                    error: ErrorCode::from(header.detail),
                    major_opcode: error.major_opcode,
                    minor_opcode: error.minor_opcode,
                    bad_value: error.bad_value,
                    sequence: header.sequence,
                },
            );
            Ok(())
        } else if code == Response::REPLY {
            self.handle_reply(b)
        } else {
            match decode_event(b, self.order) {
                Some(event) => {
                    self.events.push(event);
                    assert(self.events.items@.drop_last() =~= old(self).events.items@);
                },
                None => {},
            }
            Ok(())
        }
    }

    /// Cuts every waiter off after the connection failed: nothing waits on a reply any more,
    /// and every later take from either queue fails with `Error::Terminated`.
    pub fn terminate(&mut self)
        ensures
            final(self).order == old(self).order,
            final(self).sequence.id == old(self).sequence.id,
            final(self).sequence.sequences@ == Seq::<Sequence>::empty(),
            final(self).replies.failed == if old(self).replies.failed is Some {
                old(self).replies.failed
            } else {
                Some(Error::Terminated)
            },
            final(self).events.failed == if old(self).events.failed is Some {
                old(self).events.failed
            } else {
                Some(Error::Terminated)
            },
            final(self).replies.items@ == old(self).replies.items@,
            final(self).events.items@ == old(self).events.items@,
    {
        self.sequence.sequences = Vec::new();
        self.replies.terminate();
        self.events.terminate();
    }
}

} // verus!

verus! {

/// The protocol version that this library speaks.
pub const X_PROTOCOL: u16 = 11;

pub const X_PROTOCOL_REVISION: u16 = 0;

/// The TCP port of display 0; display `n` listens on the port `n` above it.
pub const X_TCP_PORT: u16 = 6000;

/// The client side of one connection: the setup that the server sent, its screens, the
/// resource ids left, and the router of the server's records.
pub struct Display {
    pub order: ByteOrder,
    pub setup: SuccessResponse,
    pub roots: Roots,
    pub xid: Xid,
    pub listener: EventListener,
}

/// Where the depths that start at `at` end, if the bytes hold all `n` of them with their
/// visuals.
pub open spec fn depths_end(b: Seq<u8>, order: ByteOrder, at: int, n: nat) -> Option<int>
    decreases n,
{
    if n == 0 {
        Some(at)
    } else if at + 8 > b.len() {
        None
    } else {
        let end = at + 8 + 24 * u16_at(order, b, at + 2);
        if end > b.len() {
            None
        } else {
            depths_end(b, order, end, (n - 1) as nat)
        }
    }
}

/// Where the screens that start at `at` end, if the bytes hold all `n` of them.
pub open spec fn screens_end(b: Seq<u8>, order: ByteOrder, at: int, n: nat) -> Option<int>
    decreases n,
{
    if n == 0 {
        Some(at)
    } else if at + 40 > b.len() {
        None
    } else {
        match depths_end(b, order, at + 40, b[at + 39] as nat) {
            Some(end) => screens_end(b, order, end, (n - 1) as nat),
            None => None,
        }
    }
}

pub proof fn lemma_depths_step(b: Seq<u8>, order: ByteOrder, at: int, d: nat, x: int)
    requires
        depths_end(b, order, at, d) == Some(x),
    ensures
        depths_end(b, order, at, d + 1) == depths_end(b, order, x, 1),
    decreases d,
{
    if d > 0 {
        let end = at + 8 + 24 * u16_at(order, b, at + 2);
        lemma_depths_step(b, order, end, (d - 1) as nat, x);
    }
}

pub proof fn lemma_screens_step(b: Seq<u8>, order: ByteOrder, at: int, n: nat, x: int)
    requires
        screens_end(b, order, at, n) == Some(x),
    ensures
        screens_end(b, order, at, n + 1) == screens_end(b, order, x, 1),
    decreases n,
{
    if n > 0 {
        let end = depths_end(b, order, at + 40, b[at + 39] as nat)->0;
        lemma_screens_step(b, order, end, (n - 1) as nat, x);
    }
}

/// Whether `depth` is the depth record at `at` of `b`, with its visuals.
pub open spec fn depth_matches(b: Seq<u8>, order: ByteOrder, at: int, depth: Depth) -> bool {
    &&& depth.depth == b[at]
    &&& depth.length == u16_at(order, b, at + 2)
    &&& depth.visuals@.len() == depth.length
    &&& forall|k: int|
        0 <= k < depth.length ==> #[trigger] depth.visuals@[k] == (Visual {
            id: u32_at(order, b, at + 8 + 24 * k),
            class: VisualClass::from_spec(b[at + 8 + 24 * k + 4]),
        })
}

/// Whether `screen` is the screen record at `at` of `b`, with its depths.
pub open spec fn screen_matches(b: Seq<u8>, order: ByteOrder, at: int, screen: Screen) -> bool {
    &&& screen.response == ScreenResponse::spec_decode(b.subrange(at, at + 40), order)
    &&& screen.depths@.len() == b[at + 39]
    &&& forall|j: int|
        0 <= j < screen.depths@.len() ==> #[trigger] depths_end(b, order, at + 40, j as nat) is Some
            && depth_matches(
            b,
            order,
            depths_end(b, order, at + 40, j as nat)->0,
            screen.depths@[j],
        )
}

/// Whether `roots` are the screens that start at `at` of `b`, in order.
pub open spec fn screens_match(b: Seq<u8>, order: ByteOrder, at: int, roots: Seq<Screen>) -> bool {
    forall|i: int|
        0 <= i < roots.len() ==> #[trigger] screens_end(b, order, at, i as nat) is Some
            && screen_matches(b, order, screens_end(b, order, at, i as nat)->0, roots[i])
}

/// Where the screens of an accepted setup body start: after the fixed part, the padded vendor
/// and the pixmap formats.
pub open spec fn screens_start(b: Seq<u8>, order: ByteOrder) -> int {
    let setup = SuccessResponse::spec_decode(b, order);
    32 + setup.vendor_len as int + pad_len(setup.vendor_len as int) + 8 * setup.pixmap_formats_len
}

/// Whether an accepted setup body holds everything that its fixed part announces: the vendor,
/// the pixmap formats and every screen with its depths and visuals.
pub open spec fn setup_fits(b: Seq<u8>, order: ByteOrder) -> bool {
    let setup = SuccessResponse::spec_decode(b, order);
    let vendor = setup.vendor_len as int;
    let screens = 32 + vendor + pad_len(vendor) + 8 * setup.pixmap_formats_len;
    &&& b.len() >= 32
    &&& screens <= b.len()
    &&& screens_end(b, order, screens, setup.roots_len as nat) is Some
}

/// Reads the screens, depths and visuals that follow the fixed part of an accepted setup.
fn read_screens(body: &[u8], order: ByteOrder, from: usize, count: u8) -> (r: Result<Roots, Error>)
    requires
        from <= body@.len(),
    ensures
        r is Ok <==> screens_end(body@, order, from as int, count as nat) is Some,
        r is Ok ==> r->Ok_0.roots@.len() == count && screens_match(
            body@,
            order,
            from as int,
            r->Ok_0.roots@,
        ),
        r is Err ==> r == Err::<Roots, Error>(Error::Stream),
{
    let len = body.len();
    let mut roots = Roots::new();
    let mut at = from;
    let mut s: u8 = 0;
    while s < count
        invariant
            at <= len,
            len == body@.len(),
            s <= count,
            roots.roots@.len() == s,
            screens_end(body@, order, from as int, count as nat) == screens_end(
                body@,
                order,
                at as int,
                (count - s) as nat,
            ),
            screens_end(body@, order, from as int, s as nat) == Some(at as int),
            screens_match(body@, order, from as int, roots.roots@),
        decreases count - s,
    {
        if len - at < 40 {
            return Err(Error::Stream);
        }
        let mut screen = Screen::new(ScreenResponse::decode(slice_subrange(body, at, at + 40), order));
        let ghost screen_at = at as int;
        let ghost ndepths = body@[at + 39];
        assert(screen.response.allowed_depths_len == ndepths);
        at = at + 40;
        let mut d: u8 = 0;
        while d < screen.response.allowed_depths_len
            invariant
                at <= len,
                len == body@.len(),
                s < count,
                screen_at + 40 <= len,
                body@[screen_at + 39] == ndepths,
                screens_end(body@, order, from as int, count as nat) == screens_end(
                    body@,
                    order,
                    screen_at,
                    (count - s) as nat,
                ),
                d <= screen.response.allowed_depths_len,
                screen.response.allowed_depths_len == ndepths,
                depths_end(body@, order, screen_at + 40, ndepths as nat) == depths_end(
                    body@,
                    order,
                    at as int,
                    (ndepths - d) as nat,
                ),
                depths_end(body@, order, screen_at + 40, d as nat) == Some(at as int),
                screens_end(body@, order, from as int, s as nat) == Some(screen_at),
                screens_match(body@, order, from as int, roots.roots@),
                roots.roots@.len() == s,
                screen.response == ScreenResponse::spec_decode(
                    body@.subrange(screen_at, screen_at + 40),
                    order,
                ),
                screen.depths@.len() == d,
                forall|j: int|
                    0 <= j < d ==> #[trigger] depths_end(body@, order, screen_at + 40, j as nat) is Some
                        && depth_matches(
                        body@,
                        order,
                        depths_end(body@, order, screen_at + 40, j as nat)->0,
                        screen.depths@[j],
                    ),
            decreases screen.response.allowed_depths_len - d,
        {
            if len - at < 8 {
                return Err(Error::Stream);
            }
            let mut depth = Depth::new(DepthResponse::decode(slice_subrange(body, at, at + 8), order));
            assert(depth.length == u16_at(order, body@, at + 2));
            assert(depth.depth == body@[at as int]);
            let ghost dstart = at as int;
            at = at + 8;
            let mut k: u16 = 0;
            while k < depth.length
                invariant
                    at <= len,
                    len == body@.len(),
                    s < count,
                    screen_at + 40 <= len,
                    body@[screen_at + 39] == ndepths,
                    screens_end(body@, order, from as int, count as nat) == screens_end(
                        body@,
                        order,
                        screen_at,
                        (count - s) as nat,
                    ),
                    d < ndepths,
                    depths_end(body@, order, screen_at + 40, ndepths as nat) == depths_end(
                        body@,
                        order,
                        dstart,
                        (ndepths - d) as nat,
                    ),
                    dstart + 8 <= len,
                    depth.length == u16_at(order, body@, dstart + 2),
                    k <= depth.length,
                    at == dstart + 8 + 24 * k,
                    depths_end(body@, order, screen_at + 40, d as nat) == Some(dstart),
                    screens_end(body@, order, from as int, s as nat) == Some(screen_at),
                    screens_match(body@, order, from as int, roots.roots@),
                    roots.roots@.len() == s,
                    screen.response == ScreenResponse::spec_decode(
                        body@.subrange(screen_at, screen_at + 40),
                        order,
                    ),
                    screen.depths@.len() == d,
                    forall|j: int|
                        0 <= j < d ==> #[trigger] depths_end(body@, order, screen_at + 40, j as nat)
                            is Some && depth_matches(
                            body@,
                            order,
                            depths_end(body@, order, screen_at + 40, j as nat)->0,
                            screen.depths@[j],
                        ),
                    depth.depth == body@[dstart],
                    depth.visuals@.len() == k,
                    forall|kk: int|
                        0 <= kk < k ==> #[trigger] depth.visuals@[kk] == (Visual {
                            id: u32_at(order, body@, dstart + 8 + 24 * kk),
                            class: VisualClass::from_spec(body@[dstart + 8 + 24 * kk + 4]),
                        }),
                decreases depth.length - k,
            {
                if len - at < 24 {
                    return Err(Error::Stream);
                }
                let visual = VisualResponse::decode(slice_subrange(body, at, at + 24), order);
                assert(visual.visual_id == u32_at(order, body@, at as int));
                assert(visual.class == body@[at + 4]);
                depth.visuals.push(Visual::new(visual));
                at = at + 24;
                k = k + 1;
            }
            proof {
                lemma_depths_step(body@, order, screen_at + 40, d as nat, dstart);
                assert(depths_end(body@, order, at as int, 0) == Some(at as int));
                assert(depths_end(body@, order, dstart, 1) == Some(at as int));
                assert(depth_matches(body@, order, dstart, depth));
            }
            let ghost before = screen.depths@;
            screen.depths.push(depth);
            d = d + 1;
            assert forall|j: int|
                0 <= j < d implies #[trigger] depths_end(body@, order, screen_at + 40, j as nat) is Some
                    && depth_matches(
                    body@,
                    order,
                    depths_end(body@, order, screen_at + 40, j as nat)->0,
                    screen.depths@[j],
                ) by {
                if j < d - 1 {
                    assert(screen.depths@[j] == before[j]);
                }
            }
        }
        proof {
            lemma_screens_step(body@, order, from as int, s as nat, screen_at);
            assert(screens_end(body@, order, at as int, 0) == Some(at as int));
            assert(screens_end(body@, order, screen_at, 1) == Some(at as int));
            assert(screen_matches(body@, order, screen_at, screen));
        }
        let ghost before_roots = roots.roots@;
        roots.push(screen);
        s = s + 1;
        assert forall|i: int|
            0 <= i < roots.roots@.len() implies #[trigger] screens_end(body@, order, from as int, i as nat)
                is Some && screen_matches(
                body@,
                order,
                screens_end(body@, order, from as int, i as nat)->0,
                roots.roots@[i],
            ) by {
            if i < s - 1 {
                assert(roots.roots@[i] == before_roots[i]);
            }
        }
    }
    Ok(roots)
}

impl Display {
    /// The bytes that open a connection: the setup request, then the authorization name and
    /// data, each padded to four bytes.
    pub fn setup_request(order: ByteOrder, name: &[u8], data: &[u8]) -> (r: Vec<u8>)
        requires
            name@.len() <= 65535,
            data@.len() <= 65535,
        ensures
            r@ == (SetupRequest {
                endian: marker_byte(order),
                major_version: X_PROTOCOL,
                minor_version: X_PROTOCOL_REVISION,
                name_len: name@.len() as u16,
                data_len: data@.len() as u16,
            }).spec_encode(order) + name@ + zeros(pad_len(name@.len() as int)) + data@ + zeros(
                pad_len(data@.len() as int),
            ),
            r@.len() % 4 == 0,
    {
        let request = SetupRequest {
            endian: order.marker(),
            major_version: X_PROTOCOL,
            minor_version: X_PROTOCOL_REVISION,
            name_len: name.len() as u16,
            data_len: data.len() as u16,
        };
        let mut out = request.encode(order);
        put_bytes(&mut out, name);
        put_zeros(&mut out, pad(name.len()));
        put_bytes(&mut out, data);
        put_zeros(&mut out, pad(data.len()));
        out
    }

    /// The connection that the server's answer to the setup request opens: `head` holds its
    /// first 8 bytes, `body` the bytes that its length field announces.
    pub fn connect(order: ByteOrder, head: &[u8], body: &[u8]) -> (r: Result<Display, Error>)
        requires
            head@.len() >= 8,
        ensures
            head@[0] == 0 ==> match r {
                Err(Error::SetupFailed { reason }) => head@[1] <= body@.len() && valid_utf8(
                    body@.subrange(0, head@[1] as int),
                ) && reason@ == decode_utf8(body@.subrange(0, head@[1] as int)),
                Err(Error::Utf8) => head@[1] <= body@.len() && !valid_utf8(
                    body@.subrange(0, head@[1] as int),
                ),
                Err(Error::Stream) => head@[1] > body@.len(),
                _ => false,
            },
            head@[0] == 2 ==> r == Err::<Display, Error>(Error::Authenthicate),
            head@[0] > 2 ==> r == Err::<Display, Error>(Error::InvalidStatus),
            head@[0] == 1 ==> (r is Ok <==> setup_fits(body@, order)),
            head@[0] == 1 && r is Err ==> r == Err::<Display, Error>(Error::Stream),
            r is Ok ==> {
                let d = r->Ok_0;
                &&& head@[0] == 1
                &&& d.order == order
                &&& d.setup == SuccessResponse::spec_decode(body@, order)
                &&& d.roots.roots@.len() == d.setup.roots_len
                &&& screens_match(body@, order, screens_start(body@, order), d.roots.roots@)
                &&& d.xid == Xid::new_spec(d.setup.resource_id_base, d.setup.resource_id_mask)
                &&& d.listener.order == order
                &&& d.listener.sequence.id == 0
                &&& d.listener.sequence.sequences@.len() == 0
                &&& d.listener.replies.items@.len() == 0
                &&& d.listener.replies.errors@.len() == 0
                &&& d.listener.replies.failed is None
                &&& d.listener.events.items@.len() == 0
                &&& d.listener.events.errors@.len() == 0
                &&& d.listener.events.failed is None
            },
    {
        let response = SetupResponse::decode(head, order);
        if response.status == 1 {
            Display::read_setup(order, body)
        } else if response.status == 0 {
            let n = response.padding as usize;
            if n > body.len() {
                return Err(Error::Stream);
            }
            let reason = slice_to_vec(slice_subrange(body, 0, n));
            match string_from_utf8(reason) {
                Some(reason) => Err(Error::SetupFailed { reason }),
                None => Err(Error::Utf8),
            }
        } else if response.status == 2 {
            Err(Error::Authenthicate)
        } else {
            Err(Error::InvalidStatus)
        }
    }

    /// Reads an accepted setup: the fixed part, the vendor, the pixmap formats and the screens.
    fn read_setup(order: ByteOrder, body: &[u8]) -> (r: Result<Display, Error>)
        ensures
            r is Ok <==> setup_fits(body@, order),
            r is Err ==> r == Err::<Display, Error>(Error::Stream),
            r is Ok ==> {
                let d = r->Ok_0;
                &&& d.order == order
                &&& d.setup == SuccessResponse::spec_decode(body@, order)
                &&& d.roots.roots@.len() == d.setup.roots_len
                &&& screens_match(body@, order, screens_start(body@, order), d.roots.roots@)
                &&& d.xid == Xid::new_spec(d.setup.resource_id_base, d.setup.resource_id_mask)
                &&& d.listener.order == order
                &&& d.listener.sequence.id == 0
                &&& d.listener.sequence.sequences@.len() == 0
                &&& d.listener.replies.items@.len() == 0
                &&& d.listener.replies.errors@.len() == 0
                &&& d.listener.replies.failed is None
                &&& d.listener.events.items@.len() == 0
                &&& d.listener.events.errors@.len() == 0
                &&& d.listener.events.failed is None
            },
    {
        if body.len() < 32 {
            return Err(Error::Stream);
        }
        let setup = SuccessResponse::decode(body, order);
        let vendor = setup.vendor_len as usize;
        let formats = 8 * setup.pixmap_formats_len as usize;
        if body.len() - 32 < vendor + pad(vendor) + formats {
            return Err(Error::Stream);
        }
        let at = 32 + vendor + pad(vendor) + formats;
        let roots = read_screens(body, order, at, setup.roots_len)?;
        let xid = Xid::new(setup.resource_id_base, setup.resource_id_mask);
        Ok(Display { order, setup, roots, xid, listener: EventListener::new(order) })
    }

    /// The next event, if one is ready, after surfacing a pending error.
    pub fn next_event(&mut self) -> (r: Result<Option<Event>, Error>)
        ensures
            old(self).listener.events.failed is None && old(self).listener.events.errors@.len() == 0
                && old(self).listener.events.items@.len() > 0 ==> match r {
                Ok(Some(e)) => e == old(self).listener.events.items@[0]
                    && final(self).listener.events.items@ == old(
                    self).listener.events.items@.drop_first(),
                _ => false,
            },
            old(self).listener.events.failed is None && old(self).listener.events.errors@.len() == 0
                && old(self).listener.events.items@.len() == 0 ==> r matches Ok(None),
            old(self).listener.events.failed is None && old(self).listener.events.errors@.len() > 0
                ==> r == Err::<Option<Event>, Error>(old(self).listener.events.errors@[0]),
            old(self).listener.events.failed is Some ==> r == Err::<Option<Event>, Error>(
                old(self).listener.events.failed->0,
            ),
    {
        self.listener.events.pop()
    }

    /// Whether an event is ready, after surfacing a pending error.
    pub fn poll_event(&mut self) -> (r: Result<bool, Error>)
        ensures
            old(self).listener.events.failed is None && old(self).listener.events.errors@.len() == 0
                ==> r == Ok::<bool, Error>(old(self).listener.events.items@.len() > 0),
            old(self).listener.events.failed is None && old(self).listener.events.errors@.len() > 0
                ==> r == Err::<bool, Error>(old(self).listener.events.errors@[0]),
            old(self).listener.events.failed is Some ==> r == Err::<bool, Error>(
                old(self).listener.events.failed->0,
            ),
    {
        self.listener.events.poll()
    }

    /// Asks for the attributes of the window `id`, to check it and learn its visual.
    pub fn window_from_id(&self, id: u32) -> (r: Request)
        ensures
            r.reply == Some(ReplyKind::GetWindowAttributes),
            r.bytes@ == (GetWindowAttributes {
                opcode: Opcode::GET_WINDOW_ATTRIBUTES,
                length: 2,
                wid: id,
            }).spec_encode(self.order),
    {
        let request = GetWindowAttributes {
            opcode: Opcode::GET_WINDOW_ATTRIBUTES,
            length: 2,
            wid: id,
        };
        Request { bytes: request.encode(self.order), reply: Some(ReplyKind::GetWindowAttributes) }
    }

    /// The window `id` from the reply to `window_from_id`: its visual from the reply, the depth
    /// of the default screen.
    pub fn window_from_reply(&self, id: u32, reply: Reply) -> (r: Result<Window, Error>)
        ensures
            !(reply is GetWindowAttributes) ==> r == Err::<Window, Error>(Error::InvalidReply),
            r is Ok ==> reply is GetWindowAttributes && self.roots.roots@.len() > 0 && exists|
                s: int,
                d: int,
                k: int,
            |
                visual_at(self.roots.roots@, s, d, k, reply->GetWindowAttributes_0.visual) && r
                    == Ok::<Window, Error>(
                    Window {
                        order: self.order,
                        visual: self.roots.roots@[s].depths@[d].visuals@[k],
                        depth: self.roots.roots@[0].response.root_depth,
                        id,
                    },
                ),
            reply is GetWindowAttributes && self.roots.roots@.len() == 0 ==> r == Err::<
                Window,
                Error,
            >(Error::NoScreens),
            reply is GetWindowAttributes && self.roots.roots@.len() > 0 ==> (r is Ok <==> exists|
                s: int,
                d: int,
                k: int,
            | visual_at(self.roots.roots@, s, d, k, reply->GetWindowAttributes_0.visual)),
            reply is GetWindowAttributes && self.roots.roots@.len() > 0 && r is Err ==> r == Err::<
                Window,
                Error,
            >(Error::InvalidId),
    {
        match reply {
            Reply::GetWindowAttributes(response) => {
                let screen = self.roots.first()?;
                let visual = self.roots.visual_from_id(response.visual)?;
                Ok(Window::new(self.order, visual, screen.response.root_depth, id))
            },
            _ => Err(Error::InvalidReply),
        }
    }

    /// The root window of the default screen.
    pub fn default_root_window(&self) -> (r: Result<Window, Error>)
        ensures
            self.roots.roots@.len() == 0 ==> r == Err::<Window, Error>(Error::NoScreens),
            r is Ok ==> self.roots.roots@.len() > 0 && {
                let screen = self.roots.roots@[0].response;
                &&& r->Ok_0.id == screen.root
                &&& r->Ok_0.depth == screen.root_depth
                &&& r->Ok_0.visual.id == screen.root_visual
                &&& r->Ok_0.order == self.order
            },
            self.roots.roots@.len() > 0 ==> (r is Ok <==> exists|s: int, d: int, k: int|
                visual_at(self.roots.roots@, s, d, k, self.roots.roots@[0].response.root_visual)),
            self.roots.roots@.len() > 0 && r is Err ==> r == Err::<Window, Error>(Error::InvalidId),
    {
        let screen = self.roots.first()?;
        let visual = self.roots.visual_from_id(screen.response.root_visual)?;
        Ok(Window::new(self.order, visual, screen.response.root_depth, screen.response.root))
    }

    /// Asks whether the server has an extension, and under which opcode.
    pub fn query_extension(&self, extension: Extension) -> (r: Request)
        ensures
            r.reply == Some(ReplyKind::QueryExtension),
            r.bytes@ == (QueryExtension {
                opcode: Opcode::QUERY_EXTENSION,
                length: 4,
                name_len: 8,
            }).spec_encode(self.order) + seq![
                'X' as u8,
                'I' as u8,
                'N' as u8,
                'E' as u8,
                'R' as u8,
                'A' as u8,
                'M' as u8,
                'A' as u8,
            ],
    {
        let name = extension.name();
        proof {
            vstd::string::is_ascii_spec_bytes(name);
        }
        let request = QueryExtension {
            opcode: Opcode::QUERY_EXTENSION,
            length: 2 + ((name.len() + pad(name.len())) / 4) as u16,
            name_len: name.len() as u16,
        };
        let mut bytes = request.encode(self.order);
        put_bytes(&mut bytes, name.as_bytes());
        put_zeros(&mut bytes, pad(name.len()));
        assert(bytes@ =~= (QueryExtension {
            opcode: Opcode::QUERY_EXTENSION,
            length: 4,
            name_len: 8,
        }).spec_encode(self.order) + seq![
            'X' as u8,
            'I' as u8,
            'N' as u8,
            'E' as u8,
            'R' as u8,
            'A' as u8,
            'M' as u8,
            'A' as u8,
        ]);
        Request { bytes, reply: Some(ReplyKind::QueryExtension) }
    }

    /// What the reply to `query_extension` says.
    pub fn query_extension_reply(reply: Reply) -> (r: Result<QueryExtensionResponse, Error>)
        ensures
            match reply {
                Reply::QueryExtension(response) => r == Ok::<QueryExtensionResponse, Error>(
                    response,
                ),
                _ => r == Err::<QueryExtensionResponse, Error>(Error::InvalidReply),
            },
    {
        match reply {
            Reply::QueryExtension(response) => Ok(response),
            _ => Err(Error::InvalidReply),
        }
    }

    /// The Xinerama requests, from the reply to `query_extension(Extension::Xinerama)`.
    pub fn query_xinerama(&self, reply: Reply) -> (r: Result<Xinerama, Error>)
        ensures
            match reply {
                Reply::QueryExtension(response) => r is Ok && r->Ok_0.major_opcode
                    == response.major_opcode && r->Ok_0.order == self.order,
                _ => r is Err,
            },
    {
        let response = Display::query_extension_reply(reply)?;
        Ok(Xinerama::new(self.order, response.major_opcode))
    }

    /// Asks which window has the input focus.
    pub fn get_input_focus(&self) -> (r: Request)
        ensures
            r.reply == Some(ReplyKind::GetInputFocus),
            r.bytes@ == (GetInputFocus { opcode: Opcode::GET_INPUT_FOCUS, length: 1 }).spec_encode(
                self.order,
            ),
    {
        let request = GetInputFocus { opcode: Opcode::GET_INPUT_FOCUS, length: 1 };
        Request { bytes: request.encode(self.order), reply: Some(ReplyKind::GetInputFocus) }
    }

    /// Asks for the atom of `name`, creating it unless `only_if_exists`.
    pub fn intern_atom(&self, name: &str, only_if_exists: bool) -> (r: Request)
        requires
            name.spec_bytes().len() <= 65535,
        ensures
            r.reply == Some(ReplyKind::InternAtom),
            r.bytes@ == (InternAtom {
                opcode: Opcode::INTERN_ATOM,
                only_if_exists: if only_if_exists {
                    1u8
                } else {
                    0u8
                },
                length: (2 + (name.spec_bytes().len() + pad_len(name.spec_bytes().len() as int))
                    / 4) as u16,
                name_len: name.spec_bytes().len() as u16,
            }).spec_encode(self.order) + name.spec_bytes() + zeros(
                pad_len(name.spec_bytes().len() as int),
            ),
            r.bytes@.len() == 8 + name.spec_bytes().len() + pad_len(
                name.spec_bytes().len() as int,
            ),
    {
        let bytes = name.as_bytes();
        let request = InternAtom {
            opcode: Opcode::INTERN_ATOM,
            only_if_exists: if only_if_exists {
                1
            } else {
                0
            },
            length: 2 + ((bytes.len() + pad(bytes.len())) / 4) as u16,
            name_len: bytes.len() as u16,
        };
        let mut out = request.encode(self.order);
        put_bytes(&mut out, bytes);
        put_zeros(&mut out, pad(bytes.len()));
        Request { bytes: out, reply: Some(ReplyKind::InternAtom) }
    }

    /// The atom from the reply to `intern_atom`; the null atom means that the name has none.
    pub fn intern_atom_reply(reply: Reply) -> (r: Result<Atom, Error>)
        ensures
            match reply {
                Reply::InternAtom(response) => if response.atom == 0 {
                    r == Err::<Atom, Error>(Error::InvalidAtom)
                } else {
                    r == Ok::<Atom, Error>(Atom { id: response.atom })
                },
                _ => r == Err::<Atom, Error>(Error::InvalidReply),
            },
    {
        match reply {
            Reply::InternAtom(response) => if response.atom == 0 {
                Err(Error::InvalidAtom)
            } else {
                Ok(Atom::new(response.atom))
            },
            _ => Err(Error::InvalidReply),
        }
    }

    /// Asks which window owns `selection`.
    pub fn get_selection_owner(&self, selection: Atom) -> (r: Request)
        ensures
            r.reply == Some(ReplyKind::GetSelectionOwner),
            r.bytes@ == (GetSelectionOwner {
                opcode: Opcode::GET_SELECTION_OWNER,
                length: 2,
                selection: selection.id,
            }).spec_encode(self.order),
    {
        let request = GetSelectionOwner {
            opcode: Opcode::GET_SELECTION_OWNER,
            length: 2,
            selection: selection.id,
        };
        Request { bytes: request.encode(self.order), reply: Some(ReplyKind::GetSelectionOwner) }
    }

    /// The owner from the reply to `get_selection_owner`; window 0 means that nobody owns it.
    pub fn get_selection_owner_reply(reply: Reply) -> (r: Result<Option<u32>, Error>)
        ensures
            match reply {
                Reply::GetSelectionOwner(response) => if response.owner == 0 {
                    r == Ok::<Option<u32>, Error>(None)
                } else {
                    r == Ok::<Option<u32>, Error>(Some(response.owner))
                },
                _ => r == Err::<Option<u32>, Error>(Error::InvalidReply),
            },
    {
        match reply {
            Reply::GetSelectionOwner(response) => if response.owner == 0 {
                Ok(None)
            } else {
                Ok(Some(response.owner))
            },
            _ => Err(Error::InvalidReply),
        }
    }

    /// The range of keycodes.
    pub fn display_keycodes(&self) -> (r: KeycodeRange)
        ensures
            r == (KeycodeRange { min: self.setup.min_keycode, max: self.setup.max_keycode }),
    {
        KeycodeRange::new(self.setup.min_keycode, self.setup.max_keycode)
    }

    /// Asks for the keysyms of every keycode.
    pub fn get_keyboard_mapping(&self) -> (r: Request)
        ensures
            r.reply == Some(ReplyKind::GetKeyboardMapping),
            r.bytes@ == (GetKeyboardMapping {
                opcode: Opcode::GET_KEYBOARD_MAPPING,
                length: 2,
                first: self.setup.min_keycode,
                count: ((self.setup.max_keycode - self.setup.min_keycode + 1) % 256) as u8,
            }).spec_encode(self.order),
    {
        let count = (self.setup.max_keycode as u16 + 257 - self.setup.min_keycode as u16) % 256;
        let request = GetKeyboardMapping {
            opcode: Opcode::GET_KEYBOARD_MAPPING,
            length: 2,
            first: self.setup.min_keycode,
            count: count as u8,
        };
        Request { bytes: request.encode(self.order), reply: Some(ReplyKind::GetKeyboardMapping) }
    }

    /// The keysyms and the number of keysyms per keycode from the reply to
    /// `get_keyboard_mapping`.
    pub fn keyboard_mapping_reply(reply: Reply) -> (r: Result<(Vec<Keysym>, u8), Error>)
        ensures
            match reply {
                Reply::GetKeyboardMapping { keysyms, keysyms_per_keycode } => match r {
                    Ok((k, per)) => k@ == keysyms@ && per == keysyms_per_keycode,
                    _ => false,
                },
                _ => r == Err::<(Vec<Keysym>, u8), Error>(Error::InvalidReply),
            },
    {
        match reply {
            Reply::GetKeyboardMapping { keysyms, keysyms_per_keycode } => Ok(
                (keysyms, keysyms_per_keycode),
            ),
            _ => Err(Error::InvalidReply),
        }
    }

    /// The first keysym of `keycode` in a keyboard mapping.
    pub fn keysym_from_keycode(&self, keysyms: &[Keysym], keysyms_per_keycode: u8, keycode: u8) -> (r:
        Result<Keysym, Error>)
        ensures
            ({
                let index = (keycode - self.setup.min_keycode) * keysyms_per_keycode;
                &&& keycode >= self.setup.min_keycode && index < keysyms@.len() ==> r == Ok::<
                    Keysym,
                    Error,
                >(keysyms@[index])
                &&& !(keycode >= self.setup.min_keycode && index < keysyms@.len()) ==> r == Err::<
                    Keysym,
                    Error,
                >(Error::InvalidKeysym)
            }),
    {
        if keycode < self.setup.min_keycode {
            return Err(Error::InvalidKeysym);
        }
        let offset = (keycode - self.setup.min_keycode) as u32;
        let per = keysyms_per_keycode as u32;
        assert(offset * per <= 255 * 255) by (nonlinear_arith)
            requires
                offset <= 255,
                per <= 255,
        ;
        let index = (offset * per) as usize;
        if index < keysyms.len() {
            Ok(keysyms[index])
        } else {
            Err(Error::InvalidKeysym)
        }
    }

    /// The first keysym of a keyboard mapping whose Latin-1 character is `character`.
    pub fn keysym_from_character(&self, keysyms: &[Keysym], character: char) -> (r: Result<
        Keysym,
        Error,
    >)
        ensures
            r is Ok ==> exists|i: int|
                0 <= i < keysyms@.len() && r == Ok::<Keysym, Error>(keysyms@[i]) && charset_of(
                    keysyms@[i].value,
                ) == CharacterSet::LATIN1 && latin1_of(keysyms@[i].value) == character && forall|
                    j: int,
                |
                    0 <= j < i ==> !(charset_of(keysyms@[j].value) == CharacterSet::LATIN1
                        && latin1_of(keysyms@[j].value) == character),
            r is Err ==> r == Err::<Keysym, Error>(Error::InvalidKeysym) && forall|j: int|
                0 <= j < keysyms@.len() ==> !(charset_of(keysyms@[j].value)
                    == CharacterSet::LATIN1 && latin1_of(keysyms@[j].value) == character),
    {
        let mut i: usize = 0;
        while i < keysyms.len()
            invariant
                i <= keysyms@.len(),
                forall|j: int|
                    0 <= j < i ==> !(charset_of(keysyms@[j].value) == CharacterSet::LATIN1
                        && latin1_of(keysyms@[j].value) == character),
            decreases keysyms@.len() - i,
        {
            match keysyms[i].character() {
                Ok(c) => if c == character {
                    return Ok(keysyms[i]);
                },
                Err(_) => {},
            }
            i = i + 1;
        }
        Err(Error::InvalidKeysym)
    }

    /// The keycode of the first place of `keysym` in a keyboard mapping.
    pub fn keycode_from_keysym(&self, keysyms: &[Keysym], keysyms_per_keycode: u8, keysym: Keysym) -> (r:
        Result<u8, Error>)
        ensures
            keysyms_per_keycode == 0 ==> r == Err::<u8, Error>(Error::InvalidKeysym),
            r is Ok ==> exists|i: int|
                0 <= i < keysyms@.len() && keysyms@[i] == keysym && (forall|j: int|
                    0 <= j < i ==> keysyms@[j] != keysym) && r == Ok::<u8, Error>(
                    ((i / keysyms_per_keycode as int + self.setup.min_keycode) % 256) as u8,
                ),
            keysyms_per_keycode > 0 && r is Err ==> r == Err::<u8, Error>(Error::InvalidKeysym)
                && forall|j: int| 0 <= j < keysyms@.len() ==> keysyms@[j] != keysym,
    {
        if keysyms_per_keycode == 0 {
            return Err(Error::InvalidKeysym);
        }
        let mut i: usize = 0;
        while i < keysyms.len()
            invariant
                keysyms_per_keycode > 0,
                i <= keysyms@.len(),
                forall|j: int| 0 <= j < i ==> keysyms@[j] != keysym,
            decreases keysyms@.len() - i,
        {
            if keysyms[i] == keysym {
                let q = i / keysyms_per_keycode as usize;
                let m = self.setup.min_keycode as usize;
                let code = ((q % 256) + m) % 256;
                assert(((q % 256) + m) % 256 == (q + m) % 256) by (nonlinear_arith);
                return Ok(code as u8);
            }
            i = i + 1;
        }
        Err(Error::InvalidKeysym)
    }

    /// Ends an active pointer grab.
    pub fn ungrab_pointer(&self) -> (r: Request)
        ensures
            r.reply is None,
            r.bytes@ == (UngrabPointer {
                opcode: Opcode::UNGRAB_POINTER,
                length: 2,
                time: 0,
            }).spec_encode(self.order),
    {
        let request = UngrabPointer { opcode: Opcode::UNGRAB_POINTER, length: 2, time: 0 };
        Request { bytes: request.encode(self.order), reply: None }
    }
}

} // verus!
