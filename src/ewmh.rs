//! EWMH: the properties through which window managers and clients describe desktops and
//! windows.

use vstd::prelude::*;
use vstd::string::StringSliceAdditionalSpecFns;
use vstd::utf8::encode_utf8;

use crate::display::error::Error;
use crate::display::request::{get_u32, put_bytes, put_u32, u32_at, u32_bytes, ByteOrder};
use crate::display::{Atom, Predefined};
use crate::proto::{ReplyKind, Request};
use crate::window::{
    change_property_bytes, get_property_bytes, PropFormat, PropMode, Window, MAX_PROPERTY_LEN,
};

verus! {

/// The window types of `_NET_WM_WINDOW_TYPE`.
#[derive(Debug, Clone, Copy, PartialEq, Eq, PartialOrd, Ord, Structural)]
pub enum EwmhWindowType {
    Desktop,
    Dock,
    Toolbar,
    Menu,
    Utility,
    Splash,
    Dialog,
    Normal,
}

/// The size of the desktop.
#[derive(Debug, Clone, Copy, PartialEq, Eq, Structural)]
pub struct DesktopGeometry {
    pub width: u32,
    pub height: u32,
}

/// The top left corner of a desktop's viewport.
#[derive(Debug, Clone, Copy, PartialEq, Eq, Structural)]
pub struct DesktopViewport {
    pub x: u32,
    pub y: u32,
}

/// The atoms of the EWMH properties, interned at startup.
#[derive(Debug, Clone, Copy, PartialEq, Eq)]
pub struct EwmhAtoms {
    pub active_window: Atom,
    pub client_list: Atom,
    pub client_list_stacking: Atom,
    pub current_desktop: Atom,
    pub desktop_names: Atom,
    pub desktop_viewport: Atom,
    pub desktop_geometry: Atom,
    pub supporting_wm_check: Atom,
    pub wm_name: Atom,
    pub wm_window_type: Atom,
    pub number_of_desktops: Atom,
    pub utf8_string: Atom,
    pub types: [Atom; 8],
}

/// How many atoms `EwmhAtoms::names` lists.
pub const EWMH_ATOM_COUNT: usize = 20;

impl EwmhAtoms {
    /// The names to intern, in the order that `EwmhAtoms::new` reads their atoms; the window
    /// types come last, in the order of `EwmhWindowType`.
    pub fn names() -> (r: Vec<&'static str>)
        ensures
            r@.len() == EWMH_ATOM_COUNT,
            r@ == seq![
            "_NET_ACTIVE_WINDOW",
            "_NET_CLIENT_LIST",
            "_NET_CLIENT_LIST_STACKING",
            "_NET_CURRENT_DESKTOP",
            "_NET_DESKTOP_NAMES",
            "_NET_DESKTOP_VIEWPORT",
            "_NET_DESKTOP_GEOMETRY",
            "_NET_SUPPORTING_WM_CHECK",
            "_NET_WM_NAME",
            "_NET_WM_WINDOW_TYPE",
            "_NET_NUMBER_OF_DESKTOPS",
            "UTF8_STRING",
            "_NET_WM_WINDOW_TYPE_DESKTOP",
            "_NET_WM_WINDOW_TYPE_DOCK",
            "_NET_WM_WINDOW_TYPE_TOOLBAR",
            "_NET_WM_WINDOW_TYPE_MENU",
            "_NET_WM_WINDOW_TYPE_UTILITY",
            "_NET_WM_WINDOW_TYPE_SPLASH",
            "_NET_WM_WINDOW_TYPE_DIALOG",
            "_NET_WM_WINDOW_TYPE_NORMAL",
            ],
    {
        vec![
            "_NET_ACTIVE_WINDOW",
            "_NET_CLIENT_LIST",
            "_NET_CLIENT_LIST_STACKING",
            "_NET_CURRENT_DESKTOP",
            "_NET_DESKTOP_NAMES",
            "_NET_DESKTOP_VIEWPORT",
            "_NET_DESKTOP_GEOMETRY",
            "_NET_SUPPORTING_WM_CHECK",
            "_NET_WM_NAME",
            "_NET_WM_WINDOW_TYPE",
            "_NET_NUMBER_OF_DESKTOPS",
            "UTF8_STRING",
            "_NET_WM_WINDOW_TYPE_DESKTOP",
            "_NET_WM_WINDOW_TYPE_DOCK",
            "_NET_WM_WINDOW_TYPE_TOOLBAR",
            "_NET_WM_WINDOW_TYPE_MENU",
            "_NET_WM_WINDOW_TYPE_UTILITY",
            "_NET_WM_WINDOW_TYPE_SPLASH",
            "_NET_WM_WINDOW_TYPE_DIALOG",
            "_NET_WM_WINDOW_TYPE_NORMAL",
        ]
    }

    /// The atoms interned for `EwmhAtoms::names`, in that order.
    pub fn new(interned: &[Atom]) -> (r: Result<EwmhAtoms, Error>)
        ensures
            interned@.len() != EWMH_ATOM_COUNT ==> r == Err::<EwmhAtoms, Error>(
                Error::InvalidAtom,
            ),
            interned@.len() == EWMH_ATOM_COUNT ==> r is Ok && r->Ok_0.active_window
                == interned@[0] && r->Ok_0.client_list == interned@[1]
                && r->Ok_0.client_list_stacking == interned@[2] && r->Ok_0.current_desktop
                == interned@[3] && r->Ok_0.desktop_names == interned@[4]
                && r->Ok_0.desktop_viewport == interned@[5] && r->Ok_0.desktop_geometry
                == interned@[6] && r->Ok_0.supporting_wm_check == interned@[7]
                && r->Ok_0.wm_name == interned@[8] && r->Ok_0.wm_window_type == interned@[9]
                && r->Ok_0.number_of_desktops == interned@[10] && r->Ok_0.utf8_string
                == interned@[11] && r->Ok_0.types@ == interned@.subrange(12, 20),
    {
        if interned.len() != EWMH_ATOM_COUNT {
            return Err(Error::InvalidAtom);
        }
        let s = interned;
        let types = [s[12], s[13], s[14], s[15], s[16], s[17], s[18], s[19]];
        assert(types@ =~= interned@.subrange(12, 20));
        Ok(
            EwmhAtoms {
                active_window: s[0],
                client_list: s[1],
                client_list_stacking: s[2],
                current_desktop: s[3],
                desktop_names: s[4],
                desktop_viewport: s[5],
                desktop_geometry: s[6],
                supporting_wm_check: s[7],
                wm_name: s[8],
                wm_window_type: s[9],
                number_of_desktops: s[10],
                utf8_string: s[11],
                types,
            },
        )
    }
}

/// The type at position `i` of `EwmhWindowType`.
pub open spec fn type_at(i: int) -> EwmhWindowType {
    if i == 0 {
        EwmhWindowType::Desktop
    } else if i == 1 {
        EwmhWindowType::Dock
    } else if i == 2 {
        EwmhWindowType::Toolbar
    } else if i == 3 {
        EwmhWindowType::Menu
    } else if i == 4 {
        EwmhWindowType::Utility
    } else if i == 5 {
        EwmhWindowType::Splash
    } else if i == 6 {
        EwmhWindowType::Dialog
    } else {
        EwmhWindowType::Normal
    }
}

fn type_of(i: usize) -> (r: EwmhWindowType)
    ensures
        r == type_at(i as int),
{
    match i {
        0 => EwmhWindowType::Desktop,
        1 => EwmhWindowType::Dock,
        2 => EwmhWindowType::Toolbar,
        3 => EwmhWindowType::Menu,
        4 => EwmhWindowType::Utility,
        5 => EwmhWindowType::Splash,
        6 => EwmhWindowType::Dialog,
        _ => EwmhWindowType::Normal,
    }
}

/// The 32-bit values of a property: one per four bytes; trailing bytes are ignored.
pub fn u32_list(value: &[u8], order: ByteOrder) -> (r: Vec<u32>)
    ensures
        r@.len() == value@.len() / 4,
        forall|i: int| 0 <= i < r@.len() ==> #[trigger] r@[i] == u32_at(order, value@, 4 * i),
{
    let mut list: Vec<u32> = Vec::new();
    let len = value.len();
    let n = len / 4;
    let mut i: usize = 0;
    while i < n
        invariant
            n == value@.len() / 4,
            len == value@.len(),
            i <= n,
            list@.len() == i,
            forall|k: int| 0 <= k < i ==> #[trigger] list@[k] == u32_at(order, value@, 4 * k),
        decreases n - i,
    {
        list.push(get_u32(value, 4 * i, order));
        i = i + 1;
    }
    list
}

/// The first 32-bit value of a property, the missing bytes of a short value read as zero.
pub fn u32_value(value: &[u8], order: ByteOrder) -> (r: u32)
    ensures
        value@.len() >= 4 ==> r == u32_at(order, value@, 0),
        value@.len() < 4 ==> r == u32_at(
            order,
            value@ + Seq::new((4 - value@.len()) as nat, |i: int| 0u8),
            0,
        ),
{
    if value.len() >= 4 {
        return get_u32(value, 0, order);
    }
    let mut padded: Vec<u8> = Vec::new();
    put_bytes(&mut padded, value);
    while padded.len() < 4
        invariant
            padded@.len() <= 4,
            value@.len() < 4,
            padded@.len() >= value@.len(),
            padded@ == value@ + Seq::new((padded@.len() - value@.len()) as nat, |i: int| 0u8),
        decreases 4 - padded@.len(),
    {
        padded.push(0);
        assert(padded@ =~= value@ + Seq::new(
            (padded@.len() - value@.len()) as nat,
            |i: int| 0u8,
        ));
    }
    get_u32(padded.as_slice(), 0, order)
}

/// The desktop geometry of a `_NET_DESKTOP_GEOMETRY` value: width and height, zero where the
/// value is short.
pub fn desktop_geometry(value: &[u8], order: ByteOrder) -> (r: DesktopGeometry)
    ensures
        value@.len() >= 8 ==> r == (DesktopGeometry {
            width: u32_at(order, value@, 0),
            height: u32_at(order, value@, 4),
        }),
        4 <= value@.len() < 8 ==> r == (DesktopGeometry {
            width: u32_at(order, value@, 0),
            height: 0,
        }),
        value@.len() < 4 ==> r == (DesktopGeometry { width: 0, height: 0 }),
{
    let list = u32_list(value, order);
    let width = if list.len() > 0 {
        list[0]
    } else {
        0
    };
    let height = if list.len() > 1 {
        list[1]
    } else {
        0
    };
    DesktopGeometry { width, height }
}

/// The viewports of a `_NET_DESKTOP_VIEWPORT` value: one per eight bytes.
pub fn desktop_viewports(value: &[u8], order: ByteOrder) -> (r: Vec<DesktopViewport>)
    ensures
        r@.len() == value@.len() / 8,
        forall|i: int|
            0 <= i < r@.len() ==> #[trigger] r@[i] == (DesktopViewport {
                x: u32_at(order, value@, 8 * i),
                y: u32_at(order, value@, 8 * i + 4),
            }),
{
    let mut list: Vec<DesktopViewport> = Vec::new();
    let len = value.len();
    let n = len / 8;
    let mut i: usize = 0;
    while i < n
        invariant
            n == value@.len() / 8,
            len == value@.len(),
            i <= n,
            list@.len() == i,
            forall|k: int|
                0 <= k < i ==> #[trigger] list@[k] == (DesktopViewport {
                    x: u32_at(order, value@, 8 * k),
                    y: u32_at(order, value@, 8 * k + 4),
                }),
        decreases n - i,
    {
        list.push(
            DesktopViewport { x: get_u32(value, 8 * i, order), y: get_u32(value, 8 * i + 4, order) },
        );
        i = i + 1;
    }
    list
}

/// The bytes of a list of 32-bit values.
pub open spec fn words_bytes(order: ByteOrder, s: Seq<u32>) -> Seq<u8>
    decreases s.len(),
{
    if s.len() == 0 {
        Seq::empty()
    } else {
        words_bytes(order, s.drop_last()) + u32_bytes(order, s.last())
    }
}

pub proof fn lemma_words_len(order: ByteOrder, s: Seq<u32>)
    ensures
        words_bytes(order, s).len() == 4 * s.len(),
    decreases s.len(),
{
    if s.len() > 0 {
        lemma_words_len(order, s.drop_last());
    }
}

pub proof fn lemma_words_one(order: ByteOrder, v: u32)
    ensures
        words_bytes(order, seq![v]) == u32_bytes(order, v),
{
    assert(seq![v].drop_last() =~= Seq::<u32>::empty());
    assert(words_bytes(order, Seq::<u32>::empty()) == Seq::<u8>::empty());
    assert(Seq::<u8>::empty() + u32_bytes(order, v) =~= u32_bytes(order, v));
}

fn encode_words(order: ByteOrder, values: &[u32]) -> (r: Vec<u8>)
    ensures
        r@ == words_bytes(order, values@),
{
    let mut out: Vec<u8> = Vec::new();
    let mut i: usize = 0;
    while i < values.len()
        invariant
            i <= values@.len(),
            out@ == words_bytes(order, values@.subrange(0, i as int)),
        decreases values@.len() - i,
    {
        assert(values@.subrange(0, i + 1).drop_last() =~= values@.subrange(0, i as int));
        put_u32(&mut out, order, values[i]);
        i = i + 1;
    }
    assert(values@.subrange(0, i as int) =~= values@);
    out
}

/// The EWMH properties of one window (most of them live on the root window).
pub struct Ewmh {
    pub atoms: EwmhAtoms,
    pub window: Window,
}

impl Window {
    /// The EWMH interface of this window.
    pub fn ewmh(&self, atoms: EwmhAtoms) -> (r: Ewmh)
        ensures
            r.atoms == atoms,
            r.window == *self,
    {
        Ewmh { atoms, window: *self }
    }
}

impl Ewmh {
    /// Reads `_NET_ACTIVE_WINDOW`; its value reads with `u32_value`.
    pub fn ewmh_get_active_window(&self) -> (r: Request)
        ensures
            r.reply == Some(ReplyKind::GetProperty),
            r.bytes@ == get_property_bytes(
                self.window.order,
                self.window.id,
                self.atoms.active_window,
                Atom { id: Predefined::WINDOW },
                false,
            ),
    {
        self.window.get_property(self.atoms.active_window, Atom::new(Predefined::WINDOW), false)
    }

    /// Reads `_NET_CLIENT_LIST`, in initial mapping order; its value reads with `u32_list`.
    pub fn ewmh_get_client_list(&self) -> (r: Request)
        ensures
            r.reply == Some(ReplyKind::GetProperty),
            r.bytes@ == get_property_bytes(
                self.window.order,
                self.window.id,
                self.atoms.client_list,
                Atom { id: Predefined::WINDOW },
                false,
            ),
    {
        self.window.get_property(self.atoms.client_list, Atom::new(Predefined::WINDOW), false)
    }

    /// Reads `_NET_CLIENT_LIST_STACKING`, bottom to top; its value reads with `u32_list`.
    pub fn ewmh_get_client_list_stacking(&self) -> (r: Request)
        ensures
            r.reply == Some(ReplyKind::GetProperty),
            r.bytes@ == get_property_bytes(
                self.window.order,
                self.window.id,
                self.atoms.client_list_stacking,
                Atom { id: Predefined::WINDOW },
                false,
            ),
    {
        self.window.get_property(self.atoms.client_list_stacking, Atom::new(Predefined::WINDOW), false)
    }

    /// Reads `_NET_CURRENT_DESKTOP`; its value reads with `u32_value`.
    pub fn ewmh_get_current_desktop(&self) -> (r: Request)
        ensures
            r.reply == Some(ReplyKind::GetProperty),
            r.bytes@ == get_property_bytes(
                self.window.order,
                self.window.id,
                self.atoms.current_desktop,
                Atom { id: Predefined::CARDINAL },
                false,
            ),
    {
        self.window.get_property(self.atoms.current_desktop, Atom::new(Predefined::CARDINAL), false)
    }

    /// Reads `_NET_NUMBER_OF_DESKTOPS`; its value reads with `u32_value`.
    pub fn ewmh_get_number_of_desktops(&self) -> (r: Request)
        ensures
            r.reply == Some(ReplyKind::GetProperty),
            r.bytes@ == get_property_bytes(
                self.window.order,
                self.window.id,
                self.atoms.number_of_desktops,
                Atom { id: Predefined::CARDINAL },
                false,
            ),
    {
        self.window.get_property(self.atoms.number_of_desktops, Atom::new(Predefined::CARDINAL), false)
    }

    /// Reads `_NET_DESKTOP_VIEWPORT`; its value reads with `desktop_viewports`.
    pub fn ewmh_get_desktop_viewport(&self) -> (r: Request)
        ensures
            r.reply == Some(ReplyKind::GetProperty),
            r.bytes@ == get_property_bytes(
                self.window.order,
                self.window.id,
                self.atoms.desktop_viewport,
                Atom { id: Predefined::CARDINAL },
                false,
            ),
    {
        self.window.get_property(self.atoms.desktop_viewport, Atom::new(Predefined::CARDINAL), false)
    }

    /// Reads `_NET_DESKTOP_GEOMETRY`; its value reads with `desktop_geometry`.
    pub fn ewmh_get_desktop_geometry(&self) -> (r: Request)
        ensures
            r.reply == Some(ReplyKind::GetProperty),
            r.bytes@ == get_property_bytes(
                self.window.order,
                self.window.id,
                self.atoms.desktop_geometry,
                Atom { id: Predefined::CARDINAL },
                false,
            ),
    {
        self.window.get_property(self.atoms.desktop_geometry, Atom::new(Predefined::CARDINAL), false)
    }

    /// Reads `_NET_WM_WINDOW_TYPE`; its value reads with `Ewmh::window_types`.
    pub fn ewmh_get_wm_window_type(&self) -> (r: Request)
        ensures
            r.reply == Some(ReplyKind::GetProperty),
            r.bytes@ == get_property_bytes(
                self.window.order,
                self.window.id,
                self.atoms.wm_window_type,
                Atom { id: Predefined::ATOM },
                false,
            ),
    {
        self.window.get_property(self.atoms.wm_window_type, Atom::new(Predefined::ATOM), false)
    }

    /// Reads `_NET_DESKTOP_NAMES`, UTF-8 names each ended by a zero byte.
    pub fn ewmh_get_desktop_names(&self) -> (r: Request)
        ensures
            r.reply == Some(ReplyKind::GetProperty),
            r.bytes@ == get_property_bytes(
                self.window.order,
                self.window.id,
                self.atoms.desktop_names,
                self.atoms.utf8_string,
                false,
            ),
    {
        self.window.get_property(self.atoms.desktop_names, self.atoms.utf8_string, false)
    }

    fn set_u32_list_property(&self, property: Atom, type_: Atom, values: &[u32]) -> (r: Request)
        requires
            4 * values@.len() <= MAX_PROPERTY_LEN,
        ensures
            r.reply is None,
            r.bytes@ == change_property_bytes(
                self.window.order,
                self.window.id,
                property,
                type_,
                PropFormat::Format32,
                PropMode::Replace,
                words_bytes(self.window.order, values@),
            ),
    {
        let bytes = encode_words(self.window.order, values);
        proof {
            lemma_words_len(self.window.order, values@);
        }
        self.window.change_property(
            property,
            type_,
            PropFormat::Format32,
            PropMode::Replace,
            bytes.as_slice(),
        )
    }

    /// Writes `_NET_CLIENT_LIST`.
    pub fn ewmh_set_client_list(&self, clients: &[u32]) -> (r: Request)
        requires
            4 * clients@.len() <= MAX_PROPERTY_LEN,
        ensures
            r.reply is None,
            r.bytes@ == change_property_bytes(
                self.window.order,
                self.window.id,
                self.atoms.client_list,
                Atom { id: Predefined::WINDOW },
                PropFormat::Format32,
                PropMode::Replace,
                words_bytes(self.window.order, clients@),
            ),
    {
        self.set_u32_list_property(self.atoms.client_list, Atom::new(Predefined::WINDOW), clients)
    }

    /// Writes `_NET_CURRENT_DESKTOP`.
    pub fn ewmh_set_current_desktop(&self, desktop: u32) -> (r: Request)
        ensures
            r.reply is None,
            r.bytes@ == change_property_bytes(
                self.window.order,
                self.window.id,
                self.atoms.current_desktop,
                Atom { id: Predefined::CARDINAL },
                PropFormat::Format32,
                PropMode::Replace,
                u32_bytes(self.window.order, desktop),
            ),
    {
        let values = [desktop];
        assert(values@ =~= seq![desktop]);
        proof {
            lemma_words_one(self.window.order, desktop);
        }
        self.set_u32_list_property(self.atoms.current_desktop, Atom::new(Predefined::CARDINAL), values.as_slice())
    }

    /// Writes `_NET_NUMBER_OF_DESKTOPS`.
    pub fn ewmh_set_number_of_desktops(&self, desktops: u32) -> (r: Request)
        ensures
            r.reply is None,
            r.bytes@ == change_property_bytes(
                self.window.order,
                self.window.id,
                self.atoms.number_of_desktops,
                Atom { id: Predefined::CARDINAL },
                PropFormat::Format32,
                PropMode::Replace,
                u32_bytes(self.window.order, desktops),
            ),
    {
        let values = [desktops];
        assert(values@ =~= seq![desktops]);
        proof {
            lemma_words_one(self.window.order, desktops);
        }
        self.set_u32_list_property(self.atoms.number_of_desktops, Atom::new(Predefined::CARDINAL), values.as_slice())
    }

    /// Writes `_NET_SUPPORTING_WM_CHECK`, the child window that shows a compliant manager is active.
    pub fn ewmh_set_supporting_wm_check(&self, wid: u32) -> (r: Request)
        ensures
            r.reply is None,
            r.bytes@ == change_property_bytes(
                self.window.order,
                self.window.id,
                self.atoms.supporting_wm_check,
                Atom { id: Predefined::WINDOW },
                PropFormat::Format32,
                PropMode::Replace,
                u32_bytes(self.window.order, wid),
            ),
    {
        let values = [wid];
        assert(values@ =~= seq![wid]);
        proof {
            lemma_words_one(self.window.order, wid);
        }
        self.set_u32_list_property(self.atoms.supporting_wm_check, Atom::new(Predefined::WINDOW), values.as_slice())
    }

    /// Writes `_NET_DESKTOP_VIEWPORT`.
    pub fn ewmh_set_desktop_viewport(&self, viewport: &[DesktopViewport]) -> (r: Request)
        requires
            8 * viewport@.len() <= MAX_PROPERTY_LEN,
        ensures
            r.reply is None,
            exists|values: Seq<u32>|
                values.len() == 2 * viewport@.len() && (forall|i: int|
                    0 <= i < viewport@.len() ==> values[2 * i] == #[trigger] viewport@[i].x
                        && values[2 * i + 1] == viewport@[i].y) && r.bytes@
                    == change_property_bytes(
                    self.window.order,
                    self.window.id,
                    self.atoms.desktop_viewport,
                    Atom { id: Predefined::CARDINAL },
                    PropFormat::Format32,
                    PropMode::Replace,
                    words_bytes(self.window.order, values),
                ),
    {
        let mut values: Vec<u32> = Vec::new();
        let mut i: usize = 0;
        while i < viewport.len()
            invariant
                i <= viewport@.len(),
                values@.len() == 2 * i,
                forall|k: int|
                    0 <= k < i ==> values@[2 * k] == #[trigger] viewport@[k].x && values@[2 * k
                        + 1] == viewport@[k].y,
            decreases viewport@.len() - i,
        {
            let ghost before = values@;
            values.push(viewport[i].x);
            values.push(viewport[i].y);
            assert forall|k: int|
                0 <= k < i + 1 implies values@[2 * k] == #[trigger] viewport@[k].x && values@[2 * k
                + 1] == viewport@[k].y by {
                if k < i {
                    assert(values@[2 * k] == before[2 * k]);
                    assert(values@[2 * k + 1] == before[2 * k + 1]);
                }
            }
            i = i + 1;
        }
        self.set_u32_list_property(
            self.atoms.desktop_viewport,
            Atom::new(Predefined::CARDINAL),
            values.as_slice(),
        )
    }

    /// Writes `_NET_WM_NAME`, the UTF-8 title of the window.
    pub fn ewmh_set_wm_name(&self, name: &str) -> (r: Request)
        requires
            name.spec_bytes().len() <= MAX_PROPERTY_LEN,
        ensures
            r.reply is None,
            r.bytes@ == change_property_bytes(
                self.window.order,
                self.window.id,
                self.atoms.wm_name,
                self.atoms.utf8_string,
                PropFormat::Format8,
                PropMode::Replace,
                name.spec_bytes(),
            ),
    {
        self.window.change_property(
            self.atoms.wm_name,
            self.atoms.utf8_string,
            PropFormat::Format8,
            PropMode::Replace,
            name.as_bytes(),
        )
    }

    /// Writes `_NET_DESKTOP_NAMES`: each name in UTF-8, ended by a zero byte.
    pub fn ewmh_set_desktop_names(&self, desktops: &[String]) -> (r: Option<Request>)
        ensures
            r is Some <==> names_bytes(desktops@).len() <= MAX_PROPERTY_LEN,
            r is Some ==> r->0.reply is None && r->0.bytes@ == change_property_bytes(
                self.window.order,
                self.window.id,
                self.atoms.desktop_names,
                self.atoms.utf8_string,
                PropFormat::Format8,
                PropMode::Replace,
                names_bytes(desktops@),
            ),
    {
        let mut bytes: Vec<u8> = Vec::new();
        let mut i: usize = 0;
        while i < desktops.len()
            invariant
                i <= desktops@.len(),
                bytes@ == names_bytes(desktops@.subrange(0, i as int)),
            decreases desktops@.len() - i,
        {
            assert(desktops@.subrange(0, i + 1).drop_last() =~= desktops@.subrange(0, i as int));
            put_bytes(&mut bytes, desktops[i].as_str().as_bytes());
            bytes.push(0);
            i = i + 1;
        }
        assert(desktops@.subrange(0, i as int) =~= desktops@);
        if bytes.len() > MAX_PROPERTY_LEN {
            return None;
        }
        Some(
            self.window.change_property(
                self.atoms.desktop_names,
                self.atoms.utf8_string,
                PropFormat::Format8,
                PropMode::Replace,
                bytes.as_slice(),
            ),
        )
    }

    /// The window type whose atom has this id.
    fn type_of_atom(&self, id: u32) -> (r: Option<EwmhWindowType>)
        ensures
            r == type_of_id(self.atoms.types@, id, 0),
    {
        let mut t: usize = 0;
        while t < 8
            invariant
                t <= 8,
                self.atoms.types@.len() == 8,
                type_of_id(self.atoms.types@, id, 0) == type_of_id(self.atoms.types@, id, t as int),
            decreases 8 - t,
        {
            if self.atoms.types[t].id == id {
                return Some(type_of(t));
            }
            t = t + 1;
        }
        None
    }

    /// The window types that a `_NET_WM_WINDOW_TYPE` value lists, skipping atoms of other
    /// types.
    pub fn window_types(&self, value: &[u8]) -> (r: Vec<EwmhWindowType>)
        ensures
            r@ == types_of(
                self.atoms.types@,
                Seq::new((value@.len() / 4) as nat, |i: int| u32_at(self.window.order, value@, 4 * i)),
            ),
    {
        let list = u32_list(value, self.window.order);
        let ghost ids = Seq::new(
            (value@.len() / 4) as nat,
            |i: int| u32_at(self.window.order, value@, 4 * i),
        );
        assert(list@ =~= ids);
        let mut types: Vec<EwmhWindowType> = Vec::new();
        let mut i: usize = 0;
        while i < list.len()
            invariant
                i <= list@.len(),
                list@ == ids,
                types@ == types_of(self.atoms.types@, ids.subrange(0, i as int)),
            decreases list@.len() - i,
        {
            assert(ids.subrange(0, i + 1).drop_last() =~= ids.subrange(0, i as int));
            match self.type_of_atom(list[i]) {
                Some(t) => {
                    types.push(t);
                },
                None => {},
            }
            i = i + 1;
        }
        assert(ids.subrange(0, i as int) =~= ids);
        types
    }
}

/// The type whose atom (from position `t` on) has this id.
pub open spec fn type_of_id(types: Seq<Atom>, id: u32, t: int) -> Option<EwmhWindowType>
    decreases 8 - t,
{
    if t >= 8 || t < 0 {
        None
    } else if types[t].id == id {
        Some(type_at(t))
    } else {
        type_of_id(types, id, t + 1)
    }
}

/// The window types of a list of atom ids, skipping the ids of other atoms.
pub open spec fn types_of(types: Seq<Atom>, ids: Seq<u32>) -> Seq<EwmhWindowType>
    decreases ids.len(),
{
    if ids.len() == 0 {
        Seq::empty()
    } else {
        match type_of_id(types, ids.last(), 0) {
            Some(t) => types_of(types, ids.drop_last()).push(t),
            None => types_of(types, ids.drop_last()),
        }
    }
}

/// The bytes of a list of names, each in UTF-8 and ended by a zero byte.
pub open spec fn names_bytes(s: Seq<String>) -> Seq<u8>
    decreases s.len(),
{
    if s.len() == 0 {
        Seq::empty()
    } else {
        names_bytes(s.drop_last()) + encode_utf8(s.last()@) + seq![0u8]
    }
}


} // verus!
