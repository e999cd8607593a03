//! Requests against one window.

use vstd::prelude::*;

use crate::display::error::Error;
use crate::display::request::{
    get_u32, u32_at, pad, pad_len, put_bytes, put_u32, put_zeros, u32_bytes, zeros, ByteOrder, ChangeProperty,
    ChangeWindowAttributes, ConfigureWindow, ConvertSelection, CreateWindow, GenericEvent,
    GenericWindow, GetGeometry, GetProperty, GetWindowAttributes, GrabButton, GrabKey,
    GrabPointer, KillClient, QueryPointer, ReparentWindow, SendEvent, SetInputFocus,
    SetSelectionOwner, UngrabButton,
};
use crate::display::xid::Xid;
use crate::display::{Atom, Visual};
use crate::proto::{
    event_code, is_sendable, send_event_body, BackingStore, Button, Cursor, Event, EventMask,
    Gravity, KeyMask, KeyboardMode, Opcode, PointerMode, Reply, ReplyKind, Request, RevertTo,
    StackMode, WindowClass,
};

verus! {

/// A value of a `LISTofVALUE`: the bit it sets in the mask, and its four bytes.
pub trait ValueMask: Sized {
    spec fn spec_mask(&self) -> u32;

    spec fn spec_encode(&self, order: ByteOrder) -> Seq<u8>;

    fn mask(&self) -> (r: u32)
        ensures
            r == self.spec_mask(),
    ;

    fn encode(&self, order: ByteOrder) -> (r: Vec<u8>)
        ensures
            r@ == self.spec_encode(order),
    ;
}

/// One value of a ConfigureWindow request.
#[derive(Debug, Clone, Copy, PartialEq, Eq, Structural)]
pub enum ConfigureValue {
    X(u16),
    Y(u16),
    Width(u16),
    Height(u16),
    Border(u16),
    Sibling(u32),
    StackMode(StackMode),
}

impl ValueMask for ConfigureValue {
    open spec fn spec_mask(&self) -> u32 {
        match *self {
            ConfigureValue::X(_) => 0x1,
            ConfigureValue::Y(_) => 0x2,
            ConfigureValue::Width(_) => 0x4,
            ConfigureValue::Height(_) => 0x8,
            ConfigureValue::Border(_) => 0x10,
            ConfigureValue::Sibling(_) => 0x20,
            ConfigureValue::StackMode(_) => 0x40,
        }
    }

    open spec fn spec_encode(&self, order: ByteOrder) -> Seq<u8> {
        match *self {
            ConfigureValue::X(v) => u32_bytes(order, v as u32),
            ConfigureValue::Y(v) => u32_bytes(order, v as u32),
            ConfigureValue::Width(v) => u32_bytes(order, v as u32),
            ConfigureValue::Height(v) => u32_bytes(order, v as u32),
            ConfigureValue::Border(v) => u32_bytes(order, v as u32),
            ConfigureValue::Sibling(w) => u32_bytes(order, w),
            ConfigureValue::StackMode(m) => u32_bytes(
                order,
                match m {
                    StackMode::Above => 0u32,
                    StackMode::Below => 1u32,
                    StackMode::TopIf => 2u32,
                    StackMode::BottomIf => 3u32,
                    StackMode::Opposite => 4u32,
                },
            ),
        }
    }

    fn mask(&self) -> (r: u32) {
        match self {
            ConfigureValue::X(_) => 0x1,
            ConfigureValue::Y(_) => 0x2,
            ConfigureValue::Width(_) => 0x4,
            ConfigureValue::Height(_) => 0x8,
            ConfigureValue::Border(_) => 0x10,
            ConfigureValue::Sibling(_) => 0x20,
            ConfigureValue::StackMode(_) => 0x40,
        }
    }

    fn encode(&self, order: ByteOrder) -> (r: Vec<u8>) {
        let v = match self {
            ConfigureValue::X(v) => *v as u32,
            ConfigureValue::Y(v) => *v as u32,
            ConfigureValue::Width(v) => *v as u32,
            ConfigureValue::Height(v) => *v as u32,
            ConfigureValue::Border(v) => *v as u32,
            ConfigureValue::Sibling(w) => *w,
            ConfigureValue::StackMode(m) => m.value(),
        };
        let mut out: Vec<u8> = Vec::new();
        put_u32(&mut out, order, v);
        assert(out@ =~= self.spec_encode(order));
        out
    }
}

/// The bits of a list of event classes, or-ed together.
pub open spec fn event_bits(masks: Seq<EventMask>) -> u32
    decreases masks.len(),
{
    if masks.len() == 0 {
        0
    } else {
        event_bits(masks.drop_last()) | event_bit(masks.last())
    }
}

pub open spec fn event_bit(m: EventMask) -> u32 {
    match m {
        EventMask::NoEvent => 0u32,
        EventMask::KeyPress => 1u32,
        EventMask::KeyRelease => 2u32,
        EventMask::ButtonPress => 4u32,
        EventMask::ButtonRelease => 8u32,
        EventMask::EnterWindow => 16u32,
        EventMask::LeaveWindow => 32u32,
        EventMask::PointerMotion => 64u32,
        EventMask::PointerMotionHint => 128u32,
        EventMask::Button1Motion => 256u32,
        EventMask::Button2Motion => 512u32,
        EventMask::Button3Motion => 1024u32,
        EventMask::Button4Motion => 2048u32,
        EventMask::Button5Motion => 4096u32,
        EventMask::ButtonMotion => 8192u32,
        EventMask::KeymapState => 16384u32,
        EventMask::Exposure => 32768u32,
        EventMask::VisibilityChange => 65536u32,
        EventMask::StructureNotify => 131072u32,
        EventMask::ResizeRedirect => 262144u32,
        EventMask::SubstructureNotify => 524288u32,
        EventMask::SubstructureRedirect => 1048576u32,
        EventMask::FocusChange => 2097152u32,
        EventMask::PropertyChange => 4194304u32,
        EventMask::ColorMapChange => 8388608u32,
        EventMask::OwnerGrabButton => 16777216u32,
    }
}

/// Or-s the bits of a list of event classes.
pub fn event_mask_bits(masks: &[EventMask]) -> (r: u32)
    ensures
        r == event_bits(masks@),
{
    let mut r: u32 = 0;
    let mut i: usize = 0;
    while i < masks.len()
        invariant
            i <= masks@.len(),
            r == event_bits(masks@.subrange(0, i as int)),
        decreases masks@.len() - i,
    {
        assert(masks@.subrange(0, i + 1).drop_last() =~= masks@.subrange(0, i as int));
        r = r | masks[i].value();
        i = i + 1;
    }
    assert(masks@.subrange(0, masks@.len() as int) =~= masks@);
    r
}

/// The bits of a list of modifiers, or-ed together.
pub open spec fn key_bits(mods: Seq<KeyMask>) -> u16
    decreases mods.len(),
{
    if mods.len() == 0 {
        0
    } else {
        key_bits(mods.drop_last()) | key_bit(mods.last())
    }
}

pub open spec fn key_bit(m: KeyMask) -> u16 {
    match m {
        KeyMask::Shift => 0x1u16,
        KeyMask::Lock => 0x2u16,
        KeyMask::Control => 0x4u16,
        KeyMask::Mod1 => 0x8u16,
        KeyMask::Mod2 => 0x10u16,
        KeyMask::Mod3 => 0x20u16,
        KeyMask::Mod4 => 0x40u16,
        KeyMask::Mod5 => 0x80u16,
        KeyMask::Button1 => 0x100u16,
        KeyMask::Button2 => 0x200u16,
        KeyMask::Button3 => 0x400u16,
        KeyMask::Button4 => 0x800u16,
        KeyMask::Button5 => 0x1000u16,
    }
}

/// Or-s the bits of a list of modifiers.
pub fn key_mask_bits(mods: &[KeyMask]) -> (r: u16)
    ensures
        r == key_bits(mods@),
{
    let mut r: u16 = 0;
    let mut i: usize = 0;
    while i < mods.len()
        invariant
            i <= mods@.len(),
            r == key_bits(mods@.subrange(0, i as int)),
        decreases mods@.len() - i,
    {
        assert(mods@.subrange(0, i + 1).drop_last() =~= mods@.subrange(0, i as int));
        r = r | mods[i].value();
        i = i + 1;
    }
    assert(mods@.subrange(0, mods@.len() as int) =~= mods@);
    r
}

/// One value of a CreateWindow or ChangeWindowAttributes request.
#[derive(Debug, Clone)]
pub enum WindowValue {
    BgPixmap(u32),
    BgPixel(u32),
    BorderPixmap(u32),
    BorderPixel(u32),
    BitGravity(Gravity),
    WinGravity(Gravity),
    BackingStore(BackingStore),
    BackingPlane(u32),
    BackingPixel(u32),
    OverrideRedirect(bool),
    SaveUnder(bool),
    EventMask(Vec<EventMask>),
    DoNotPropogateMask(Vec<EventMask>),
    Colormap(u32),
    Cursor(Cursor),
}

pub open spec fn gravity_value(g: Gravity) -> u32 {
    match g {
        Gravity::Forget => 0u32,
        Gravity::NorthWest => 1u32,
        Gravity::North => 2u32,
        Gravity::NorthEast => 3u32,
        Gravity::West => 4u32,
        Gravity::Center => 5u32,
        Gravity::East => 6u32,
        Gravity::SouthWest => 7u32,
        Gravity::South => 8u32,
        Gravity::SouthEast => 9u32,
        Gravity::Static => 10u32,
    }
}

pub open spec fn window_value_word(v: WindowValue) -> u32 {
    match v {
        WindowValue::BgPixmap(x) => x,
        WindowValue::BgPixel(x) => x,
        WindowValue::BorderPixmap(x) => x,
        WindowValue::BorderPixel(x) => x,
        WindowValue::BitGravity(g) => gravity_value(g),
        WindowValue::WinGravity(g) => gravity_value(g),
        WindowValue::BackingStore(s) => match s {
            BackingStore::NotUseful => 0u32,
            BackingStore::WhenMapped => 1u32,
            BackingStore::Always => 2u32,
        },
        WindowValue::BackingPlane(x) => x,
        WindowValue::BackingPixel(x) => x,
        WindowValue::OverrideRedirect(b) => if b {
            1u32
        } else {
            0u32
        },
        WindowValue::SaveUnder(b) => if b {
            1u32
        } else {
            0u32
        },
        WindowValue::EventMask(m) => event_bits(m@),
        WindowValue::DoNotPropogateMask(m) => event_bits(m@),
        WindowValue::Colormap(x) => x,
        WindowValue::Cursor(_) => 0u32,
    }
}

impl WindowValue {
    /// The bits of a list of event classes, or-ed together.
    pub fn mask(&self, masks: &[EventMask]) -> (r: u32)
        ensures
            r == event_bits(masks@),
    {
        event_mask_bits(masks)
    }
}

impl ValueMask for WindowValue {
    open spec fn spec_mask(&self) -> u32 {
        match *self {
            WindowValue::BgPixmap(_) => 0x1,
            WindowValue::BgPixel(_) => 0x2,
            WindowValue::BorderPixmap(_) => 0x4,
            WindowValue::BorderPixel(_) => 0x8,
            WindowValue::BitGravity(_) => 0x10,
            WindowValue::WinGravity(_) => 0x20,
            WindowValue::BackingStore(_) => 0x40,
            WindowValue::BackingPlane(_) => 0x80,
            WindowValue::BackingPixel(_) => 0x100,
            WindowValue::OverrideRedirect(_) => 0x200,
            WindowValue::SaveUnder(_) => 0x400,
            WindowValue::EventMask(_) => 0x800,
            WindowValue::DoNotPropogateMask(_) => 0x1000,
            WindowValue::Colormap(_) => 0x2000,
            WindowValue::Cursor(_) => 0x4000,
        }
    }

    open spec fn spec_encode(&self, order: ByteOrder) -> Seq<u8> {
        u32_bytes(order, window_value_word(*self))
    }

    fn mask(&self) -> (r: u32) {
        match self {
            WindowValue::BgPixmap(_) => 0x1,
            WindowValue::BgPixel(_) => 0x2,
            WindowValue::BorderPixmap(_) => 0x4,
            WindowValue::BorderPixel(_) => 0x8,
            WindowValue::BitGravity(_) => 0x10,
            WindowValue::WinGravity(_) => 0x20,
            WindowValue::BackingStore(_) => 0x40,
            WindowValue::BackingPlane(_) => 0x80,
            WindowValue::BackingPixel(_) => 0x100,
            WindowValue::OverrideRedirect(_) => 0x200,
            WindowValue::SaveUnder(_) => 0x400,
            WindowValue::EventMask(_) => 0x800,
            WindowValue::DoNotPropogateMask(_) => 0x1000,
            WindowValue::Colormap(_) => 0x2000,
            WindowValue::Cursor(_) => 0x4000,
        }
    }

    fn encode(&self, order: ByteOrder) -> (r: Vec<u8>) {
        let word = match self {
            WindowValue::BgPixmap(x) => *x,
            WindowValue::BgPixel(x) => *x,
            WindowValue::BorderPixmap(x) => *x,
            WindowValue::BorderPixel(x) => *x,
            WindowValue::BitGravity(g) => g.value(),
            WindowValue::WinGravity(g) => g.value(),
            WindowValue::BackingStore(s) => s.value(),
            WindowValue::BackingPlane(x) => *x,
            WindowValue::BackingPixel(x) => *x,
            WindowValue::OverrideRedirect(b) => if *b {
                1
            } else {
                0
            },
            WindowValue::SaveUnder(b) => if *b {
                1
            } else {
                0
            },
            WindowValue::EventMask(m) => self.mask_of(m),
            WindowValue::DoNotPropogateMask(m) => self.mask_of(m),
            WindowValue::Colormap(x) => *x,
            WindowValue::Cursor(c) => c.value(),
        };
        let mut out: Vec<u8> = Vec::new();
        put_u32(&mut out, order, word);
        assert(out@ =~= self.spec_encode(order));
        out
    }
}

impl WindowValue {
    fn mask_of(&self, masks: &Vec<EventMask>) -> (r: u32)
        ensures
            r == event_bits(masks@),
    {
        event_mask_bits(masks.as_slice())
    }
}

pub open spec fn pow2(k: nat) -> nat
    decreases k,
{
    if k == 0 {
        1
    } else {
        2 * pow2((k - 1) as nat)
    }
}

/// The last value of `s` that sets mask bit `m`, if any.
pub open spec fn last_with<T: ValueMask>(s: Seq<T>, m: u32) -> Option<T>
    decreases s.len(),
{
    if s.len() == 0 {
        None
    } else if s.last().spec_mask() == m {
        Some(s.last())
    } else {
        last_with(s.drop_last(), m)
    }
}

/// The values that go on the wire for bits `0..k`, in ascending order of their bits: for each
/// bit, the last value given for it.
pub open spec fn chosen<T: ValueMask>(s: Seq<T>, k: nat) -> Seq<T>
    decreases k,
{
    if k == 0 {
        Seq::empty()
    } else {
        chosen(s, (k - 1) as nat) + match last_with(s, pow2((k - 1) as nat) as u32) {
            Some(v) => seq![v],
            None => Seq::empty(),
        }
    }
}

/// The bytes of a list of values.
pub open spec fn values_bytes<T: ValueMask>(vals: Seq<T>, order: ByteOrder) -> Seq<u8>
    decreases vals.len(),
{
    if vals.len() == 0 {
        Seq::empty()
    } else {
        values_bytes(vals.drop_last(), order) + vals.last().spec_encode(order)
    }
}

/// The mask bits of a list of values, or-ed together.
pub open spec fn values_mask<T: ValueMask>(vals: Seq<T>) -> u32
    decreases vals.len(),
{
    if vals.len() == 0 {
        0
    } else {
        values_mask(vals.drop_last()) | vals.last().spec_mask()
    }
}

/// A `LISTofVALUE`: values given in any order, written in ascending order of their bits.
pub struct ValuesBuilder<T> {
    pub values: Vec<T>,
}

impl<T: ValueMask> ValuesBuilder<T> {
    pub fn new(values: Vec<T>) -> (r: ValuesBuilder<T>)
        ensures
            r.values@ == values@,
    {
        ValuesBuilder { values }
    }

    /// The last value given for the bit `m`.
    fn last_with_mask(&self, m: u32) -> (r: Option<&T>)
        ensures
            match last_with(self.values@, m) {
                Some(v) => r is Some && *r->0 == v,
                None => r is None,
            },
    {
        let mut i = self.values.len();
        assert(self.values@.subrange(0, i as int) =~= self.values@);
        while i > 0
            invariant
                i <= self.values@.len(),
                last_with(self.values@, m) == last_with(self.values@.subrange(0, i as int), m),
            decreases i,
        {
            let ghost pre = self.values@.subrange(0, i as int);
            assert(pre.drop_last() =~= self.values@.subrange(0, i - 1));
            if self.values[i - 1].mask() == m {
                return Some(&self.values[i - 1]);
            }
            i = i - 1;
        }
        None
    }

    /// The bytes of the values in ascending order of their bits, the mask they set, and how
    /// many there are. A bit given twice keeps the last value.
    pub fn build(&self, order: ByteOrder) -> (r: (Vec<u8>, u32, usize))
        ensures
            r.0@ == values_bytes(chosen(self.values@, 32), order),
            r.1 == values_mask(chosen(self.values@, 32)),
            r.2 == chosen(self.values@, 32).len(),
            r.2 <= 32,
    {
        let mut out: Vec<u8> = Vec::new();
        let mut mask: u32 = 0;
        let mut count: usize = 0;
        let mut bit: u64 = 0;
        let mut unit: u64 = 1;
        while bit < 32
            invariant
                bit <= 32,
                unit == pow2(bit as nat),
                count == chosen(self.values@, bit as nat).len(),
                count <= bit,
                out@ == values_bytes(chosen(self.values@, bit as nat), order),
                mask == values_mask(chosen(self.values@, bit as nat)),
            decreases 32 - bit,
        {
            let ghost before = chosen(self.values@, bit as nat);
            assert(pow2(bit as nat + 1) == 2 * pow2(bit as nat));
            proof {
                lemma_pow2_bound(bit as nat);
            }
            match self.last_with_mask(unit as u32) {
                Some(v) => {
                    let bytes = v.encode(order);
                    put_bytes(&mut out, bytes.as_slice());
                    mask = mask | v.mask();
                    count = count + 1;
                    let ghost after = before + seq![*v];
                    assert(after.drop_last() =~= before);
                },
                None => {
                    assert(before + Seq::<T>::empty() =~= before);
                },
            }
            bit = bit + 1;
            unit = unit * 2;
        }
        (out, mask, count)
    }

    pub fn len(&self) -> (r: usize)
        ensures
            r == self.values@.len(),
    {
        self.values.len()
    }
}

pub proof fn lemma_pow2_bound(k: nat)
    requires
        k < 32,
    ensures
        pow2(k) <= 0x8000_0000,
{
    lemma_pow2_grows(k, 31);
    reveal_with_fuel(pow2, 32);
}

pub proof fn lemma_pow2_grows(k: nat, j: nat)
    requires
        k <= j,
    ensures
        pow2(k) <= pow2(j),
    decreases j - k,
{
    if k < j {
        lemma_pow2_grows(k, (j - 1) as nat);
    }
}

/// What a new window is made of.
pub struct WindowArguments {
    pub depth: u8,
    pub x: i16,
    pub y: i16,
    pub width: u16,
    pub height: u16,
    pub border_width: u16,
    pub class: WindowClass,
    pub visual: Visual,
    pub values: ValuesBuilder<WindowValue>,
}

/// Whether a request acts on the window itself or on its children.
#[derive(Debug, Clone, Copy, PartialEq, Eq, Structural)]
pub enum WindowKind {
    Window,
    SubWindows,
}

impl WindowKind {
    /// The opcode that fits this kind.
    pub fn encode(&self, subwindows: u8, window: u8) -> (r: u8)
        ensures
            r == if *self == WindowKind::Window {
                window
            } else {
                subwindows
            },
    {
        match self {
            WindowKind::Window => window,
            WindowKind::SubWindows => subwindows,
        }
    }
}

/// The width of the units of a property value.
#[derive(Debug, Clone, Copy, PartialEq, Eq, Structural)]
pub enum PropFormat {
    Format8,
    Format16,
    Format32,
}

pub open spec fn format_bits(f: PropFormat) -> u8 {
    match f {
        PropFormat::Format8 => 8u8,
        PropFormat::Format16 => 16u8,
        PropFormat::Format32 => 32u8,
    }
}

impl PropFormat {
    /// The number of bits in one unit.
    pub fn value(&self) -> (r: u8)
        ensures
            r == format_bits(*self),
    {
        match self {
            PropFormat::Format8 => 8,
            PropFormat::Format16 => 16,
            PropFormat::Format32 => 32,
        }
    }

    /// The number of whole units in `len` bytes.
    pub fn encode(&self, len: usize) -> (r: u32)
        requires
            len <= u32::MAX,
        ensures
            r == len as int / (format_bits(*self) as int / 8),
    {
        match self {
            PropFormat::Format8 => len as u32,
            PropFormat::Format16 => (len / 2) as u32,
            PropFormat::Format32 => (len / 4) as u32,
        }
    }
}

/// How a property change combines with the old value.
#[derive(Debug, Clone, Copy, PartialEq, Eq, Structural)]
pub enum PropMode {
    Replace,
    Prepend,
    Append,
}

pub open spec fn mode_value(m: PropMode) -> u8 {
    match m {
        PropMode::Replace => 0u8,
        PropMode::Prepend => 1u8,
        PropMode::Append => 2u8,
    }
}

impl PropMode {
    pub fn value(&self) -> (r: u8)
        ensures
            r == mode_value(*self),
    {
        match self {
            PropMode::Replace => 0,
            PropMode::Prepend => 1,
            PropMode::Append => 2,
        }
    }
}

/// The largest property value that fits one ChangeProperty request.
pub const MAX_PROPERTY_LEN: usize = 262116;

/// The bytes of a ChangeProperty request for `data`.
#[verifier::opaque]
pub open spec fn change_property_bytes(
    order: ByteOrder,
    window: u32,
    property: Atom,
    type_: Atom,
    format: PropFormat,
    mode: PropMode,
    data: Seq<u8>,
) -> Seq<u8> {
    (ChangeProperty {
        opcode: Opcode::CHANGE_PROPERTY,
        mode: mode_value(mode),
        length: (6 + (data.len() + pad_len(data.len() as int)) / 4) as u16,
        window,
        property: property.id,
        type_: type_.id,
        format: format_bits(format),
        data_len: (data.len() as int / (format_bits(format) as int / 8)) as u32,
    }).spec_encode(order) + data + zeros(pad_len(data.len() as int))
}

/// The bytes of a ConfigureWindow request.
pub open spec fn configure_bytes(order: ByteOrder, window: u32, values: Seq<ConfigureValue>) -> Seq<u8> {
    let vals = chosen(values, 32);
    (ConfigureWindow {
        opcode: Opcode::CONFIGURE_WINDOW,
        length: (3 + vals.len()) as u16,
        wid: window,
        mask: values_mask(vals) as u16,
    }).spec_encode(order) + values_bytes(vals, order)
}

/// The bytes of a ChangeWindowAttributes request.
pub open spec fn attributes_bytes(order: ByteOrder, window: u32, values: Seq<WindowValue>) -> Seq<u8> {
    let vals = chosen(values, 32);
    (ChangeWindowAttributes {
        opcode: Opcode::CHANGE_WINDOW_ATTRIBUTES,
        length: (3 + vals.len()) as u16,
        wid: window,
        mask: values_mask(vals),
    }).spec_encode(order) + values_bytes(vals, order)
}

/// The bytes of a SendEvent request: the fixed part, then the event in its 32-byte slot.
#[verifier::opaque]
pub open spec fn send_event_bytes(
    order: ByteOrder,
    destination: u32,
    event: Event,
    event_mask: u32,
    propogate: bool,
) -> Seq<u8> {
    (SendEvent {
        opcode: Opcode::SEND_EVENT,
        propogate: if propogate {
            1u8
        } else {
            0u8
        },
        length: 11,
        destination,
        event_mask,
    }).spec_encode(order) + (GenericEvent {
        opcode: event_code(event),
        detail: send_event_body(event, order).0,
        sequence: 0,
    }).spec_encode(order) + send_event_body(event, order).1
}

/// The bytes of a GetProperty request for the whole value.
pub open spec fn get_property_bytes(
    order: ByteOrder,
    window: u32,
    property: Atom,
    type_: Atom,
    delete: bool,
) -> Seq<u8> {
    (GetProperty {
        opcode: Opcode::GET_PROPERTY,
        delete: if delete {
            1u8
        } else {
            0u8
        },
        length: 6,
        window,
        property: property.id,
        type_: type_.id,
        long_offset: 0,
        long_length: 65535,
    }).spec_encode(order)
}

/// A window of the display, by its id; its requests are written in the connection's order.
#[derive(Debug, Clone, Copy, PartialEq, Eq, Structural)]
pub struct Window {
    pub order: ByteOrder,
    pub visual: Visual,
    pub depth: u8,
    pub id: u32,
}

impl Window {
    pub fn new(order: ByteOrder, visual: Visual, depth: u8, id: u32) -> (r: Window)
        ensures
            r == (Window { order, visual, depth, id }),
    {
        Window { order, visual, depth, id }
    }

    pub fn id(&self) -> (r: u32)
        ensures
            r == self.id,
    {
        self.id
    }

    pub fn depth(&self) -> (r: u8)
        ensures
            r == self.depth,
    {
        self.depth
    }

    pub fn visual(&self) -> (r: Visual)
        ensures
            r == self.visual,
    {
        self.visual
    }

    /// SendEvent of a selection notice or a client message to this window: the event fills
    /// the 32-byte slot, with sequence 0.
    pub fn send_event(&self, event: &Event, event_mask: &[EventMask], propogate: bool) -> (r: Request)
        requires
            is_sendable(*event),
        ensures
            r.reply is None,
            r.bytes@ == send_event_bytes(
                self.order,
                self.id,
                *event,
                event_bits(event_mask@),
                propogate,
            ),
    {
        reveal(send_event_bytes);
        let data = event.encode(self.order);
        let mut bytes = SendEvent {
            opcode: Opcode::SEND_EVENT,
            propogate: if propogate {
                1
            } else {
                0
            },
            length: 11,
            destination: self.id,
            event_mask: event_mask_bits(event_mask),
        }.encode(self.order);
        let header = GenericEvent { opcode: event.opcode(), detail: data.detail, sequence: 0 };
        let head = header.encode(self.order);
        put_bytes(&mut bytes, head.as_slice());
        put_bytes(&mut bytes, data.event.as_slice());
        Request { bytes, reply: None }
    }

    pub fn get_window_attributes(&self) -> (r: Request)
        ensures
            r.reply == Some(ReplyKind::GetWindowAttributes),
            r.bytes@ == (GetWindowAttributes {
                opcode: Opcode::GET_WINDOW_ATTRIBUTES,
                length: 2,
                wid: self.id,
            }).spec_encode(self.order),
    {
        let request = GetWindowAttributes {
            opcode: Opcode::GET_WINDOW_ATTRIBUTES,
            length: 2,
            wid: self.id,
        };
        Request { bytes: request.encode(self.order), reply: Some(ReplyKind::GetWindowAttributes) }
    }

    pub fn get_geometry(&self) -> (r: Request)
        ensures
            r.reply == Some(ReplyKind::GetGeometry),
            r.bytes@ == (GetGeometry {
                opcode: Opcode::GET_GEOMETRY,
                length: 2,
                window: self.id,
            }).spec_encode(self.order),
    {
        let request = GetGeometry { opcode: Opcode::GET_GEOMETRY, length: 2, window: self.id };
        Request { bytes: request.encode(self.order), reply: Some(ReplyKind::GetGeometry) }
    }

    /// Makes this window the owner of `selection`.
    pub fn set_selection_owner(&self, selection: Atom) -> (r: Request)
        ensures
            r.reply is None,
            r.bytes@ == (SetSelectionOwner {
                opcode: Opcode::SET_SELECTION_OWNER,
                length: 4,
                owner: self.id,
                selection: selection.id,
                time: 0,
            }).spec_encode(self.order),
    {
        let request = SetSelectionOwner {
            opcode: Opcode::SET_SELECTION_OWNER,
            length: 4,
            owner: self.id,
            selection: selection.id,
            time: 0,
        };
        Request { bytes: request.encode(self.order), reply: None }
    }

    /// Asks the owner of `selection` to store it as `target` in `property` of this window.
    pub fn convert_selection(&self, selection: Atom, target: Atom, property: Atom) -> (r: Request)
        ensures
            r.reply is None,
            r.bytes@ == (ConvertSelection {
                opcode: Opcode::CONVERT_SELECTION,
                length: 6,
                requestor: self.id,
                selection: selection.id,
                target: target.id,
                property: property.id,
                time: 0,
            }).spec_encode(self.order),
    {
        let request = ConvertSelection {
            opcode: Opcode::CONVERT_SELECTION,
            length: 6,
            requestor: self.id,
            selection: selection.id,
            target: target.id,
            property: property.id,
            time: 0,
        };
        Request { bytes: request.encode(self.order), reply: None }
    }

    fn generic_window(&self, opcode: u8, length: u16) -> (r: Request)
        ensures
            r.reply is None,
            r.bytes@ == (GenericWindow { opcode, length, wid: self.id }).spec_encode(self.order),
    {
        let request = GenericWindow { opcode, length, wid: self.id };
        Request { bytes: request.encode(self.order), reply: None }
    }

    /// Creates a child of this window with a fresh id from `xid`.
    pub fn create_window(&self, xid: &mut Xid, window: WindowArguments) -> (r: Result<
        (Window, Request),
        Error,
    >)
        ensures
            r is Ok <==> old(xid).next + 1 < old(xid).mask,
            r is Err ==> r == Err::<(Window, Request), Error>(Error::RanOutOfXid) && *final(xid)
                == *old(xid),
            r is Ok ==> {
                let (child, request) = r->Ok_0;
                let vals = chosen(window.values.values@, 32);
                &&& old(xid).next + 1 < old(xid).mask
                &&& *final(xid) == (Xid { next: (old(xid).next + 1) as u32, ..*old(xid) })
                &&& child == (Window {
                    order: self.order,
                    visual: window.visual,
                    depth: window.depth,
                    id: ((old(xid).next + 1) as u32) | old(xid).base,
                })
                &&& request.reply is None
                &&& request.bytes@ == (CreateWindow {
                    opcode: Opcode::CREATE_WINDOW,
                    depth: window.depth,
                    length: (8 + vals.len()) as u16,
                    wid: child.id,
                    parent: self.id,
                    x: window.x,
                    y: window.y,
                    width: window.width,
                    height: window.height,
                    border_width: window.border_width,
                    class: match window.class {
                        WindowClass::CopyFromParent => 0u16,
                        WindowClass::InputOutput => 1u16,
                        WindowClass::InputOnly => 2u16,
                    },
                    visual: window.visual.id,
                    value_mask: values_mask(vals),
                }).spec_encode(self.order) + values_bytes(vals, self.order)
            },
    {
        let wid = xid.next()?;
        let (values, mask, count) = window.values.build(self.order);
        let request = CreateWindow {
            opcode: Opcode::CREATE_WINDOW,
            depth: window.depth,
            length: 8 + count as u16,
            wid,
            parent: self.id,
            x: window.x,
            y: window.y,
            width: window.width,
            height: window.height,
            border_width: window.border_width,
            class: window.class.value(),
            visual: window.visual.id,
            value_mask: mask,
        };
        let mut bytes = request.encode(self.order);
        put_bytes(&mut bytes, values.as_slice());
        Ok((Window::new(self.order, window.visual, window.depth, wid), Request { bytes, reply: None }))
    }

    /// Kills the client that created this window.
    pub fn kill(&self) -> (r: Request)
        ensures
            r.reply is None,
            r.bytes@ == (KillClient {
                opcode: Opcode::KILL_CLIENT,
                length: 2,
                resource: self.id,
            }).spec_encode(self.order),
    {
        let request = KillClient { opcode: Opcode::KILL_CLIENT, length: 2, resource: self.id };
        Request { bytes: request.encode(self.order), reply: None }
    }

    pub fn set_input_focus(&self, revert_to: RevertTo) -> (r: Request)
        ensures
            r.reply is None,
            r.bytes@ == (SetInputFocus {
                opcode: Opcode::SET_INPUT_FOCUS,
                revert_to: match revert_to {
                    RevertTo::No => 0u8,
                    RevertTo::PointerRoot => 1u8,
                    RevertTo::Parent => 2u8,
                },
                length: 3,
                focus: self.id,
                time: 0,
            }).spec_encode(self.order),
    {
        let request = SetInputFocus {
            opcode: Opcode::SET_INPUT_FOCUS,
            revert_to: revert_to.value(),
            length: 3,
            focus: self.id,
            time: 0,
        };
        Request { bytes: request.encode(self.order), reply: None }
    }

    pub fn change_attributes(&self, values: &ValuesBuilder<WindowValue>) -> (r: Request)
        ensures
            r.reply is None,
            r.bytes@ == attributes_bytes(self.order, self.id, values.values@),
    {
        let (list, mask, count) = values.build(self.order);
        let request = ChangeWindowAttributes {
            opcode: Opcode::CHANGE_WINDOW_ATTRIBUTES,
            length: 3 + count as u16,
            wid: self.id,
            mask,
        };
        let mut bytes = request.encode(self.order);
        put_bytes(&mut bytes, list.as_slice());
        Request { bytes, reply: None }
    }

    pub fn configure(&self, values: &ValuesBuilder<ConfigureValue>) -> (r: Request)
        ensures
            r.reply is None,
            r.bytes@ == configure_bytes(self.order, self.id, values.values@),
    {
        let (list, mask, count) = values.build(self.order);
        let request = ConfigureWindow {
            opcode: Opcode::CONFIGURE_WINDOW,
            length: 3 + count as u16,
            wid: self.id,
            mask: #[verifier::truncate] (mask as u16),
        };
        let mut bytes = request.encode(self.order);
        put_bytes(&mut bytes, list.as_slice());
        Request { bytes, reply: None }
    }

    pub fn set_border_pixel(&self, pixel: u32) -> (r: Request)
        ensures
            r.reply is None,
            r.bytes@ == attributes_bytes(self.order, self.id, seq![WindowValue::BorderPixel(pixel)]),
    {
        let values = ValuesBuilder::new(vec![WindowValue::BorderPixel(pixel)]);
        assert(values.values@ =~= seq![WindowValue::BorderPixel(pixel)]);
        self.change_attributes(&values)
    }

    pub fn set_border_width(&self, width: u16) -> (r: Request)
        ensures
            r.reply is None,
            r.bytes@ == configure_bytes(self.order, self.id, seq![ConfigureValue::Border(width)]),
    {
        let values = ValuesBuilder::new(vec![ConfigureValue::Border(width)]);
        assert(values.values@ =~= seq![ConfigureValue::Border(width)]);
        self.configure(&values)
    }

    /// Moves the window.
    pub fn mov(&self, x: u16, y: u16) -> (r: Request)
        ensures
            r.reply is None,
            r.bytes@ == configure_bytes(
                self.order,
                self.id,
                seq![ConfigureValue::X(x), ConfigureValue::Y(y)],
            ),
    {
        let values = ValuesBuilder::new(vec![ConfigureValue::X(x), ConfigureValue::Y(y)]);
        assert(values.values@ =~= seq![ConfigureValue::X(x), ConfigureValue::Y(y)]);
        self.configure(&values)
    }

    pub fn resize(&self, width: u16, height: u16) -> (r: Request)
        ensures
            r.reply is None,
            r.bytes@ == configure_bytes(
                self.order,
                self.id,
                seq![ConfigureValue::Width(width), ConfigureValue::Height(height)],
            ),
    {
        let values = ValuesBuilder::new(
            vec![ConfigureValue::Width(width), ConfigureValue::Height(height)],
        );
        assert(values.values@ =~= seq![
            ConfigureValue::Width(width),
            ConfigureValue::Height(height),
        ]);
        self.configure(&values)
    }

    /// Moves and resizes the window in one request.
    pub fn mov_resize(&self, x: u16, y: u16, width: u16, height: u16) -> (r: Request)
        ensures
            r.reply is None,
            r.bytes@ == configure_bytes(
                self.order,
                self.id,
                seq![
                    ConfigureValue::X(x),
                    ConfigureValue::Y(y),
                    ConfigureValue::Width(width),
                    ConfigureValue::Height(height),
                ],
            ),
    {
        let values = ValuesBuilder::new(
            vec![
                ConfigureValue::X(x),
                ConfigureValue::Y(y),
                ConfigureValue::Width(width),
                ConfigureValue::Height(height),
            ],
        );
        assert(values.values@ =~= seq![
            ConfigureValue::X(x),
            ConfigureValue::Y(y),
            ConfigureValue::Width(width),
            ConfigureValue::Height(height),
        ]);
        self.configure(&values)
    }

    /// Selects the events that this client receives for the window.
    pub fn select_input(&self, events: &[EventMask]) -> (r: Request)
        ensures
            r.reply is None,
            r.bytes@ == (ChangeWindowAttributes {
                opcode: Opcode::CHANGE_WINDOW_ATTRIBUTES,
                length: 4,
                wid: self.id,
                mask: 0x800,
            }).spec_encode(self.order) + u32_bytes(self.order, event_bits(events@)),
    {
        let request = ChangeWindowAttributes {
            opcode: Opcode::CHANGE_WINDOW_ATTRIBUTES,
            length: 4,
            wid: self.id,
            mask: 0x800,
        };
        let mut bytes = request.encode(self.order);
        put_u32(&mut bytes, self.order, event_mask_bits(events));
        Request { bytes, reply: None }
    }

    pub fn raise(&self) -> (r: Request)
        ensures
            r.reply is None,
            r.bytes@ == configure_bytes(
                self.order,
                self.id,
                seq![ConfigureValue::StackMode(StackMode::Above)],
            ),
    {
        let values = ValuesBuilder::new(vec![ConfigureValue::StackMode(StackMode::Above)]);
        assert(values.values@ =~= seq![ConfigureValue::StackMode(StackMode::Above)]);
        self.configure(&values)
    }

    pub fn lower(&self) -> (r: Request)
        ensures
            r.reply is None,
            r.bytes@ == configure_bytes(
                self.order,
                self.id,
                seq![ConfigureValue::StackMode(StackMode::Below)],
            ),
    {
        let values = ValuesBuilder::new(vec![ConfigureValue::StackMode(StackMode::Below)]);
        assert(values.values@ =~= seq![ConfigureValue::StackMode(StackMode::Below)]);
        self.configure(&values)
    }

    /// Makes this window a child of `parent`, at `(x, y)`.
    pub fn reparent(&self, parent: &Window, x: u16, y: u16) -> (r: Request)
        ensures
            r.reply is None,
            r.bytes@ == (ReparentWindow {
                opcode: Opcode::REPARENT_WINDOW,
                length: 4,
                window: self.id,
                parent: parent.id,
                x,
                y,
            }).spec_encode(self.order),
    {
        let request = ReparentWindow {
            opcode: Opcode::REPARENT_WINDOW,
            length: 4,
            window: self.id,
            parent: parent.id,
            x,
            y,
        };
        Request { bytes: request.encode(self.order), reply: None }
    }

    pub fn destroy(&self, kind: WindowKind) -> (r: Request)
        ensures
            r.reply is None,
            r.bytes@ == (GenericWindow {
                opcode: if kind == WindowKind::Window {
                    Opcode::DESTROY_WINDOW
                } else {
                    Opcode::DESTROY_SUBWINDOWS
                },
                length: 2,
                wid: self.id,
            }).spec_encode(self.order),
    {
        self.generic_window(kind.encode(Opcode::DESTROY_SUBWINDOWS, Opcode::DESTROY_WINDOW), 2)
    }

    pub fn map(&self, kind: WindowKind) -> (r: Request)
        ensures
            r.reply is None,
            r.bytes@ == (GenericWindow {
                opcode: if kind == WindowKind::Window {
                    Opcode::MAP_WINDOW
                } else {
                    Opcode::MAP_SUBWINDOWS
                },
                length: 2,
                wid: self.id,
            }).spec_encode(self.order),
    {
        self.generic_window(kind.encode(Opcode::MAP_SUBWINDOWS, Opcode::MAP_WINDOW), 2)
    }

    pub fn unmap(&self, kind: WindowKind) -> (r: Request)
        ensures
            r.reply is None,
            r.bytes@ == (GenericWindow {
                opcode: if kind == WindowKind::Window {
                    Opcode::UNMAP_WINDOW
                } else {
                    Opcode::UNMAP_SUBWINDOWS
                },
                length: 2,
                wid: self.id,
            }).spec_encode(self.order),
    {
        self.generic_window(kind.encode(Opcode::UNMAP_SUBWINDOWS, Opcode::UNMAP_WINDOW), 2)
    }

    /// ChangeProperty: the data follows the fixed part, padded to four bytes.
    #[verifier::rlimit(40)]
    pub fn change_property(
        &self,
        property: Atom,
        type_: Atom,
        format: PropFormat,
        mode: PropMode,
        data: &[u8],
    ) -> (r: Request)
        requires
            data@.len() <= MAX_PROPERTY_LEN,
        ensures
            r.reply is None,
            r.bytes@ == change_property_bytes(
                self.order,
                self.id,
                property,
                type_,
                format,
                mode,
                data@,
            ),
            r.bytes@.len() == 24 + data@.len() + pad_len(data@.len() as int),
            r.bytes@.len() % 4 == 0,
    {
        reveal(change_property_bytes);
        let padding = pad(data.len());
        assert((data.len() + padding) / 4 <= 65529);
        let request = ChangeProperty {
            opcode: Opcode::CHANGE_PROPERTY,
            mode: mode.value(),
            length: 6 + ((data.len() + padding) / 4) as u16,
            window: self.id,
            property: property.id,
            type_: type_.id,
            format: format.value(),
            data_len: format.encode(data.len()),
        };
        let mut bytes = request.encode(self.order);
        put_bytes(&mut bytes, data);
        put_zeros(&mut bytes, padding);
        Request { bytes, reply: None }
    }

    pub fn delete_property(&self, property: Atom) -> (r: Request)
        ensures
            r.reply is None,
            r.bytes@ == (GenericWindow {
                opcode: Opcode::DELETE_PROPERTY,
                length: 3,
                wid: self.id,
            }).spec_encode(self.order) + u32_bytes(self.order, property.id),
    {
        let request = GenericWindow { opcode: Opcode::DELETE_PROPERTY, length: 3, wid: self.id };
        let mut bytes = request.encode(self.order);
        put_u32(&mut bytes, self.order, property.id);
        Request { bytes, reply: None }
    }

    /// GetProperty of the whole value (up to 65535 units of four bytes).
    pub fn get_property(&self, property: Atom, type_: Atom, delete: bool) -> (r: Request)
        ensures
            r.reply == Some(ReplyKind::GetProperty),
            r.bytes@ == get_property_bytes(self.order, self.id, property, type_, delete),
    {
        let request = GetProperty {
            opcode: Opcode::GET_PROPERTY,
            delete: if delete {
                1
            } else {
                0
            },
            length: 6,
            window: self.id,
            property: property.id,
            type_: type_.id,
            long_offset: 0,
            long_length: 65535,
        };
        Request { bytes: request.encode(self.order), reply: Some(ReplyKind::GetProperty) }
    }

    /// The value of a property from the reply to GetProperty: `None` when the property does
    /// not exist (its type is the null atom).
    pub fn property_from_reply(reply: Reply) -> (r: Result<Option<(Vec<u8>, Atom)>, Error>)
        ensures
            match reply {
                Reply::GetProperty { type_, value, .. } => if type_.id == 0 {
                    r == Ok::<Option<(Vec<u8>, Atom)>, Error>(None)
                } else {
                    match r {
                        Ok(Some((v, t))) => v@ == value@ && t == type_,
                        _ => false,
                    }
                },
                _ => r == Err::<Option<(Vec<u8>, Atom)>, Error>(Error::InvalidReply),
            },
    {
        match reply {
            Reply::GetProperty { type_, value, .. } => if type_.is_null() {
                Ok(None)
            } else {
                Ok(Some((value, type_)))
            },
            _ => Err(Error::InvalidReply),
        }
    }

    /// Whether an ATOM[]/32 property value (read with `get_property`) lists any of `atoms`.
    pub fn property_contains(&self, value: &[u8], atoms: &[Atom]) -> (r: bool)
        ensures
            r == exists|i: int, k: int|
                #![trigger atoms@[k], u32_at(self.order, value@, 4 * i)]
                0 <= i < value@.len() / 4 && 0 <= k < atoms@.len() && atoms@[k].id == u32_at(
                    self.order,
                    value@,
                    4 * i,
                ),
    {
        let len = value.len();
        let n = len / 4;
        let mut i: usize = 0;
        while i < n
            invariant
                n == value@.len() / 4,
                len == value@.len(),
                i <= n,
                forall|i2: int, k: int|
                    #![trigger atoms@[k], u32_at(self.order, value@, 4 * i2)]
                    0 <= i2 < i && 0 <= k < atoms@.len() ==> atoms@[k].id != u32_at(
                        self.order,
                        value@,
                        4 * i2,
                    ),
            decreases n - i,
        {
            let id = get_u32(value, 4 * i, self.order);
            let mut k: usize = 0;
            while k < atoms.len()
                invariant
                    k <= atoms@.len(),
                    i < n,
                    n == value@.len() / 4,
                    len == value@.len(),
                    id == u32_at(self.order, value@, 4 * i),
                    forall|k2: int| 0 <= k2 < k ==> #[trigger] atoms@[k2].id != id,
                decreases atoms@.len() - k,
            {
                if atoms[k].id == id {
                    assert(atoms@[k as int].id == u32_at(self.order, value@, 4 * i));
                    return true;
                }
                k = k + 1;
            }
            assert forall|i2: int, k2: int|
                #![trigger atoms@[k2], u32_at(self.order, value@, 4 * i2)]
                0 <= i2 < i + 1 && 0 <= k2 < atoms@.len() implies atoms@[k2].id != u32_at(
                self.order,
                value@,
                4 * i2,
            ) by {
                if i2 == i {
                    assert(atoms@[k2].id != id);
                }
            }
            i = i + 1;
        }
        false
    }

    pub fn query_pointer(&self) -> (r: Request)
        ensures
            r.reply == Some(ReplyKind::QueryPointer),
            r.bytes@ == (QueryPointer {
                opcode: Opcode::QUERY_POINTER,
                length: 2,
                wid: self.id,
            }).spec_encode(self.order),
    {
        let request = QueryPointer { opcode: Opcode::QUERY_POINTER, length: 2, wid: self.id };
        Request { bytes: request.encode(self.order), reply: Some(ReplyKind::QueryPointer) }
    }

    /// Grabs a key on this window; buttons are not valid modifiers here.
    pub fn grab_key(
        &self,
        modifiers: &[KeyMask],
        keycode: u8,
        pointer_mode: PointerMode,
        keyboard_mode: KeyboardMode,
        owner_events: bool,
    ) -> (r: Request)
        ensures
            r.reply is None,
            r.bytes@ == (GrabKey {
                opcode: Opcode::GRAB_KEY,
                owner_events: if owner_events {
                    1u8
                } else {
                    0u8
                },
                length: 4,
                grab_window: self.id,
                modifiers: key_bits(modifiers@),
                key: keycode,
                pointer_mode: pointer_mode.spec_value(),
                keyboard_mode: keyboard_mode.spec_value(),
            }).spec_encode(self.order),
    {
        let request = GrabKey {
            opcode: Opcode::GRAB_KEY,
            owner_events: if owner_events {
                1
            } else {
                0
            },
            length: 4,
            grab_window: self.id,
            modifiers: key_mask_bits(modifiers),
            key: keycode,
            pointer_mode: pointer_mode.value(),
            keyboard_mode: keyboard_mode.value(),
        };
        Request { bytes: request.encode(self.order), reply: None }
    }

    /// Grabs a button on this window.
    pub fn grab_button(
        &self,
        button: Button,
        modifiers: &[KeyMask],
        event_mask: &[EventMask],
        cursor: Cursor,
        pointer_mode: PointerMode,
        keyboard_mode: KeyboardMode,
        owner_events: bool,
        confine_to: u32,
    ) -> (r: Request)
        ensures
            r.reply is None,
            r.bytes@ == (GrabButton {
                opcode: Opcode::GRAB_BUTTON,
                owner_events: if owner_events {
                    1u8
                } else {
                    0u8
                },
                length: 6,
                grab_window: self.id,
                event_mask: event_bits(event_mask@) as u16,
                pointer_mode: pointer_mode.spec_value(),
                keyboard_mode: keyboard_mode.spec_value(),
                confine_to,
                cursor: 0,
                button: button.spec_value(),
                modifiers: key_bits(modifiers@),
            }).spec_encode(self.order),
    {
        let request = GrabButton {
            opcode: Opcode::GRAB_BUTTON,
            owner_events: if owner_events {
                1
            } else {
                0
            },
            length: 6,
            grab_window: self.id,
            event_mask: #[verifier::truncate] (event_mask_bits(event_mask) as u16),
            pointer_mode: pointer_mode.value(),
            keyboard_mode: keyboard_mode.value(),
            confine_to,
            cursor: cursor.value(),
            button: button.value(),
            modifiers: key_mask_bits(modifiers),
        };
        Request { bytes: request.encode(self.order), reply: None }
    }

    pub fn ungrab_button(&self, button: Button, modifiers: &[KeyMask]) -> (r: Request)
        ensures
            r.reply is None,
            r.bytes@ == (UngrabButton {
                opcode: Opcode::UNGRAB_BUTTON,
                button: button.spec_value(),
                length: 3,
                grab_window: self.id,
                modifiers: key_bits(modifiers@),
            }).spec_encode(self.order),
    {
        let request = UngrabButton {
            opcode: Opcode::UNGRAB_BUTTON,
            button: button.value(),
            length: 3,
            grab_window: self.id,
            modifiers: key_mask_bits(modifiers),
        };
        Request { bytes: request.encode(self.order), reply: None }
    }

    /// Grabs the pointer; the reply tells whether the grab succeeded.
    pub fn grab_pointer(
        &self,
        event_mask: &[EventMask],
        cursor: Cursor,
        pointer_mode: PointerMode,
        keyboard_mode: KeyboardMode,
        owner_events: bool,
        confine_to: u32,
    ) -> (r: Request)
        ensures
            r.reply == Some(ReplyKind::GrabPointer),
            r.bytes@ == (GrabPointer {
                opcode: Opcode::GRAB_POINTER,
                owner_events: if owner_events {
                    1u8
                } else {
                    0u8
                },
                length: 6,
                grab_window: self.id,
                event_mask: event_bits(event_mask@) as u16,
                pointer_mode: pointer_mode.spec_value(),
                keyboard_mode: keyboard_mode.spec_value(),
                confine_to,
                cursor: 0,
                time: 0,
            }).spec_encode(self.order),
    {
        let request = GrabPointer {
            opcode: Opcode::GRAB_POINTER,
            owner_events: if owner_events {
                1
            } else {
                0
            },
            length: 6,
            grab_window: self.id,
            event_mask: #[verifier::truncate] (event_mask_bits(event_mask) as u16),
            pointer_mode: pointer_mode.value(),
            keyboard_mode: keyboard_mode.value(),
            confine_to,
            cursor: cursor.value(),
            time: 0,
        };
        Request { bytes: request.encode(self.order), reply: Some(ReplyKind::GrabPointer) }
    }
}

} // verus!
