//! Fixed-layout records of the X11 protocol and their byte encoding.

use vstd::prelude::*;
use vstd::utf8::{decode_utf8, valid_utf8};

verus! {

/// The byte order of every multi-byte field on one connection.
#[derive(Debug, Clone, Copy, PartialEq, Eq, Structural)]
pub enum ByteOrder {
    Little,
    Big,
}

impl ByteOrder {
    /// The byte that announces this order in the setup request.
    pub fn marker(&self) -> (r: u8)
        ensures
            r == marker_byte(*self),
    {
        match self {
            ByteOrder::Little => 0x6c,
            ByteOrder::Big => 0x42,
        }
    }
}

pub open spec fn marker_byte(order: ByteOrder) -> u8 {
    match order {
        ByteOrder::Little => 0x6c,
        ByteOrder::Big => 0x42,
    }
}

/// Zero bytes that follow `len` bytes so that the total is a multiple of four.
pub open spec fn pad_len(len: int) -> int {
    (4 - (len % 4)) % 4
}

pub open spec fn zeros(n: int) -> Seq<u8> {
    Seq::new(n as nat, |i: int| 0u8)
}

pub open spec fn u16_bytes(order: ByteOrder, v: u16) -> Seq<u8> {
    let lo = (v % 256) as u8;
    let hi = (v / 256) as u8;
    match order {
        ByteOrder::Little => seq![lo, hi],
        ByteOrder::Big => seq![hi, lo],
    }
}

pub open spec fn u32_bytes(order: ByteOrder, v: u32) -> Seq<u8> {
    let b0 = (v % 256) as u8;
    let b1 = ((v / 256) % 256) as u8;
    let b2 = ((v / 65536) % 256) as u8;
    let b3 = (v / 16777216) as u8;
    match order {
        ByteOrder::Little => seq![b0, b1, b2, b3],
        ByteOrder::Big => seq![b3, b2, b1, b0],
    }
}

pub open spec fn u16_at(order: ByteOrder, b: Seq<u8>, at: int) -> u16 {
    match order {
        ByteOrder::Little => (b[at] as int + 256 * b[at + 1] as int) as u16,
        ByteOrder::Big => (256 * b[at] as int + b[at + 1] as int) as u16,
    }
}

pub open spec fn u32_at(order: ByteOrder, b: Seq<u8>, at: int) -> u32 {
    match order {
        ByteOrder::Little => (b[at] as int + 256 * b[at + 1] as int + 65536 * b[at + 2] as int
            + 16777216 * b[at + 3] as int) as u32,
        ByteOrder::Big => (16777216 * b[at] as int + 65536 * b[at + 1] as int + 256 * b[at
            + 2] as int + b[at + 3] as int) as u32,
    }
}

/// The number of zero bytes that pad `len` bytes to a multiple of four.
pub fn pad(len: usize) -> (r: usize)
    ensures
        r == pad_len(len as int),
        r < 4,
        (len + r) % 4 == 0,
{
    (4 - (len % 4)) % 4
}

/// A payload of `len` bytes takes `len + (-len mod 4)` bytes on the wire: the padding is
/// less than four and brings the total to a multiple of four.
pub proof fn lemma_padding(len: nat)
    ensures
        pad_len(len as int) == (-(len as int)) % 4,
        (len + pad_len(len as int)) % 4 == 0,
        0 <= pad_len(len as int) < 4,
{
}

/// Appends a 16-bit field.
pub fn put_u16(out: &mut Vec<u8>, order: ByteOrder, v: u16)
    ensures
        final(out)@ == old(out)@ + u16_bytes(order, v),
{
    let lo = (v % 256) as u8;
    let hi = (v / 256) as u8;
    match order {
        ByteOrder::Little => {
            out.push(lo);
            out.push(hi);
        },
        ByteOrder::Big => {
            out.push(hi);
            out.push(lo);
        },
    }
    assert(out@ =~= old(out)@ + u16_bytes(order, v));
}

/// Appends a 32-bit field.
pub fn put_u32(out: &mut Vec<u8>, order: ByteOrder, v: u32)
    ensures
        final(out)@ == old(out)@ + u32_bytes(order, v),
{
    let b0 = (v % 256) as u8;
    let b1 = ((v / 256) % 256) as u8;
    let b2 = ((v / 65536) % 256) as u8;
    let b3 = (v / 16777216) as u8;
    match order {
        ByteOrder::Little => {
            out.push(b0);
            out.push(b1);
            out.push(b2);
            out.push(b3);
        },
        ByteOrder::Big => {
            out.push(b3);
            out.push(b2);
            out.push(b1);
            out.push(b0);
        },
    }
    assert(out@ =~= old(out)@ + u32_bytes(order, v));
}

/// Appends `n` zero bytes.
pub fn put_zeros(out: &mut Vec<u8>, n: usize)
    ensures
        final(out)@ == old(out)@ + zeros(n as int),
{
    let mut i: usize = 0;
    while i < n
        invariant
            i <= n,
            out@ == old(out)@ + zeros(i as int),
        decreases n - i,
    {
        out.push(0u8);
        i = i + 1;
        assert(out@ =~= old(out)@ + zeros(i as int));
    }
}

/// Appends bytes as they are.
pub fn put_bytes(out: &mut Vec<u8>, data: &[u8])
    ensures
        final(out)@ == old(out)@ + data@,
{
    let mut i: usize = 0;
    while i < data.len()
        invariant
            i <= data@.len(),
            out@ == old(out)@ + data@.subrange(0, i as int),
        decreases data@.len() - i,
    {
        out.push(data[i]);
        i = i + 1;
        assert(out@ =~= old(out)@ + data@.subrange(0, i as int));
    }
    assert(data@.subrange(0, data@.len() as int) =~= data@);
}

/// The bytes of a list of 16-bit fields.
pub open spec fn u16s_bytes(order: ByteOrder, s: Seq<u16>) -> Seq<u8>
    decreases s.len(),
{
    if s.len() == 0 {
        Seq::empty()
    } else {
        u16s_bytes(order, s.drop_last()) + u16_bytes(order, s.last())
    }
}

/// The bytes of a list of 32-bit fields.
pub open spec fn u32s_bytes(order: ByteOrder, s: Seq<u32>) -> Seq<u8>
    decreases s.len(),
{
    if s.len() == 0 {
        Seq::empty()
    } else {
        u32s_bytes(order, s.drop_last()) + u32_bytes(order, s.last())
    }
}

/// Appends a list of 32-bit fields.
pub fn put_u32s(out: &mut Vec<u8>, order: ByteOrder, values: &[u32])
    ensures
        final(out)@ == old(out)@ + u32s_bytes(order, values@),
{
    let mut i: usize = 0;
    while i < values.len()
        invariant
            i <= values@.len(),
            out@ == old(out)@ + u32s_bytes(order, values@.subrange(0, i as int)),
        decreases values@.len() - i,
    {
        let ghost before = out@;
        put_u32(out, order, values[i]);
        assert(values@.subrange(0, i + 1).drop_last() =~= values@.subrange(0, i as int));
        i = i + 1;
        assert(out@ =~= old(out)@ + u32s_bytes(order, values@.subrange(0, i as int)));
    }
    assert(values@.subrange(0, values@.len() as int) =~= values@);
}

/// Relies on `String::from_utf8`: it accepts exactly the valid UTF-8 byte strings, and the
/// string it returns holds the characters that the bytes encode.
#[verifier::external_body]
pub(crate) fn string_from_utf8(bytes: Vec<u8>) -> (r: Option<String>)
    ensures
        r is Some <==> valid_utf8(bytes@),
        r is Some ==> r->0@ == decode_utf8(bytes@),
{
    String::from_utf8(bytes).ok()
}

/// Reads a 16-bit field.
pub fn get_u16(b: &[u8], at: usize, order: ByteOrder) -> (r: u16)
    requires
        at + 2 <= b@.len(),
    ensures
        r == u16_at(order, b@, at as int),
{
    let x0 = b[at] as u16;
    let x1 = b[at + 1] as u16;
    match order {
        ByteOrder::Little => x0 + 256 * x1,
        ByteOrder::Big => 256 * x0 + x1,
    }
}

/// Reads a 32-bit field.
pub fn get_u32(b: &[u8], at: usize, order: ByteOrder) -> (r: u32)
    requires
        at + 4 <= b@.len(),
    ensures
        r == u32_at(order, b@, at as int),
{
    let x0 = b[at] as u32;
    let x1 = b[at + 1] as u32;
    let x2 = b[at + 2] as u32;
    let x3 = b[at + 3] as u32;
    match order {
        ByteOrder::Little => x0 + 256 * x1 + 65536 * x2 + 16777216 * x3,
        ByteOrder::Big => 16777216 * x0 + 65536 * x1 + 256 * x2 + x3,
    }
}

/// The opening message of a connection; the authorization name and data follow it.
#[derive(Debug, Clone, Copy, PartialEq, Eq, Structural)]
pub struct SetupRequest {
    pub endian: u8,
    pub major_version: u16,
    pub minor_version: u16,
    pub name_len: u16,
    pub data_len: u16,
}

impl SetupRequest {
    /// The bytes of this record.
    pub open spec fn spec_encode(&self, order: ByteOrder) -> Seq<u8> {
        seq![self.endian]
            + zeros(1)
            + u16_bytes(order, self.major_version)
            + u16_bytes(order, self.minor_version)
            + u16_bytes(order, self.name_len)
            + u16_bytes(order, self.data_len)
            + zeros(2)
    }

    /// Writes this record in `order`; it is 12 bytes long.
    pub fn encode(&self, order: ByteOrder) -> (r: Vec<u8>)
        ensures
            r@ == self.spec_encode(order),
            r@.len() == 12,
    {
        let mut out: Vec<u8> = Vec::new();
        out.push(self.endian);
        put_zeros(&mut out, 1);
        put_u16(&mut out, order, self.major_version);
        put_u16(&mut out, order, self.minor_version);
        put_u16(&mut out, order, self.name_len);
        put_u16(&mut out, order, self.data_len);
        put_zeros(&mut out, 2);
        assert(out@ =~= self.spec_encode(order));
        out
    }
}

/// The fixed part of CreateWindow; the list of values follows it.
#[derive(Debug, Clone, Copy, PartialEq, Eq, Structural)]
pub struct CreateWindow {
    pub opcode: u8,
    pub depth: u8,
    pub length: u16,
    pub wid: u32,
    pub parent: u32,
    pub x: i16,
    pub y: i16,
    pub width: u16,
    pub height: u16,
    pub border_width: u16,
    pub class: u16,
    pub visual: u32,
    pub value_mask: u32,
}

impl CreateWindow {
    /// The bytes of this record.
    pub open spec fn spec_encode(&self, order: ByteOrder) -> Seq<u8> {
        seq![self.opcode]
            + seq![self.depth]
            + u16_bytes(order, self.length)
            + u32_bytes(order, self.wid)
            + u32_bytes(order, self.parent)
            + u16_bytes(order, self.x as u16)
            + u16_bytes(order, self.y as u16)
            + u16_bytes(order, self.width)
            + u16_bytes(order, self.height)
            + u16_bytes(order, self.border_width)
            + u16_bytes(order, self.class)
            + u32_bytes(order, self.visual)
            + u32_bytes(order, self.value_mask)
    }

    /// Writes this record in `order`; it is 32 bytes long.
    pub fn encode(&self, order: ByteOrder) -> (r: Vec<u8>)
        ensures
            r@ == self.spec_encode(order),
            r@.len() == 32,
    {
        let mut out: Vec<u8> = Vec::new();
        out.push(self.opcode);
        out.push(self.depth);
        put_u16(&mut out, order, self.length);
        put_u32(&mut out, order, self.wid);
        put_u32(&mut out, order, self.parent);
        put_u16(&mut out, order, self.x as u16);
        put_u16(&mut out, order, self.y as u16);
        put_u16(&mut out, order, self.width);
        put_u16(&mut out, order, self.height);
        put_u16(&mut out, order, self.border_width);
        put_u16(&mut out, order, self.class);
        put_u32(&mut out, order, self.visual);
        put_u32(&mut out, order, self.value_mask);
        assert(out@ =~= self.spec_encode(order));
        out
    }
}

/// A request whose only argument is one resource.
#[derive(Debug, Clone, Copy, PartialEq, Eq, Structural)]
pub struct GenericWindow {
    pub opcode: u8,
    pub length: u16,
    pub wid: u32,
}

impl GenericWindow {
    /// The bytes of this record.
    pub open spec fn spec_encode(&self, order: ByteOrder) -> Seq<u8> {
        seq![self.opcode]
            + zeros(1)
            + u16_bytes(order, self.length)
            + u32_bytes(order, self.wid)
    }

    /// Writes this record in `order`; it is 8 bytes long.
    pub fn encode(&self, order: ByteOrder) -> (r: Vec<u8>)
        ensures
            r@ == self.spec_encode(order),
            r@.len() == 8,
    {
        let mut out: Vec<u8> = Vec::new();
        out.push(self.opcode);
        put_zeros(&mut out, 1);
        put_u16(&mut out, order, self.length);
        put_u32(&mut out, order, self.wid);
        assert(out@ =~= self.spec_encode(order));
        out
    }
}

/// The fixed part of InternAtom; the name follows it.
#[derive(Debug, Clone, Copy, PartialEq, Eq, Structural)]
pub struct InternAtom {
    pub opcode: u8,
    pub only_if_exists: u8,
    pub length: u16,
    pub name_len: u16,
}

impl InternAtom {
    /// The bytes of this record.
    pub open spec fn spec_encode(&self, order: ByteOrder) -> Seq<u8> {
        seq![self.opcode]
            + seq![self.only_if_exists]
            + u16_bytes(order, self.length)
            + u16_bytes(order, self.name_len)
            + zeros(2)
    }

    /// Writes this record in `order`; it is 8 bytes long.
    pub fn encode(&self, order: ByteOrder) -> (r: Vec<u8>)
        ensures
            r@ == self.spec_encode(order),
            r@.len() == 8,
    {
        let mut out: Vec<u8> = Vec::new();
        out.push(self.opcode);
        out.push(self.only_if_exists);
        put_u16(&mut out, order, self.length);
        put_u16(&mut out, order, self.name_len);
        put_zeros(&mut out, 2);
        assert(out@ =~= self.spec_encode(order));
        out
    }
}

/// The fixed part of ChangeProperty; the data follows it.
#[derive(Debug, Clone, Copy, PartialEq, Eq, Structural)]
pub struct ChangeProperty {
    pub opcode: u8,
    pub mode: u8,
    pub length: u16,
    pub window: u32,
    pub property: u32,
    pub type_: u32,
    pub format: u8,
    pub data_len: u32,
}

impl ChangeProperty {
    /// The bytes of this record.
    pub open spec fn spec_encode(&self, order: ByteOrder) -> Seq<u8> {
        seq![self.opcode]
            + seq![self.mode]
            + u16_bytes(order, self.length)
            + u32_bytes(order, self.window)
            + u32_bytes(order, self.property)
            + u32_bytes(order, self.type_)
            + seq![self.format]
            + zeros(3)
            + u32_bytes(order, self.data_len)
    }

    /// Writes this record in `order`; it is 24 bytes long.
    pub fn encode(&self, order: ByteOrder) -> (r: Vec<u8>)
        ensures
            r@ == self.spec_encode(order),
            r@.len() == 24,
    {
        let mut out: Vec<u8> = Vec::new();
        out.push(self.opcode);
        out.push(self.mode);
        put_u16(&mut out, order, self.length);
        put_u32(&mut out, order, self.window);
        put_u32(&mut out, order, self.property);
        put_u32(&mut out, order, self.type_);
        out.push(self.format);
        put_zeros(&mut out, 3);
        put_u32(&mut out, order, self.data_len);
        assert(out@ =~= self.spec_encode(order));
        out
    }
}

/// GetProperty.
#[derive(Debug, Clone, Copy, PartialEq, Eq, Structural)]
pub struct GetProperty {
    pub opcode: u8,
    pub delete: u8,
    pub length: u16,
    pub window: u32,
    pub property: u32,
    pub type_: u32,
    pub long_offset: u32,
    pub long_length: u32,
}

impl GetProperty {
    /// The bytes of this record.
    pub open spec fn spec_encode(&self, order: ByteOrder) -> Seq<u8> {
        seq![self.opcode]
            + seq![self.delete]
            + u16_bytes(order, self.length)
            + u32_bytes(order, self.window)
            + u32_bytes(order, self.property)
            + u32_bytes(order, self.type_)
            + u32_bytes(order, self.long_offset)
            + u32_bytes(order, self.long_length)
    }

    /// Writes this record in `order`; it is 24 bytes long.
    pub fn encode(&self, order: ByteOrder) -> (r: Vec<u8>)
        ensures
            r@ == self.spec_encode(order),
            r@.len() == 24,
    {
        let mut out: Vec<u8> = Vec::new();
        out.push(self.opcode);
        out.push(self.delete);
        put_u16(&mut out, order, self.length);
        put_u32(&mut out, order, self.window);
        put_u32(&mut out, order, self.property);
        put_u32(&mut out, order, self.type_);
        put_u32(&mut out, order, self.long_offset);
        put_u32(&mut out, order, self.long_length);
        assert(out@ =~= self.spec_encode(order));
        out
    }
}

/// ReparentWindow.
#[derive(Debug, Clone, Copy, PartialEq, Eq, Structural)]
pub struct ReparentWindow {
    pub opcode: u8,
    pub length: u16,
    pub window: u32,
    pub parent: u32,
    pub x: u16,
    pub y: u16,
}

impl ReparentWindow {
    /// The bytes of this record.
    pub open spec fn spec_encode(&self, order: ByteOrder) -> Seq<u8> {
        seq![self.opcode]
            + zeros(1)
            + u16_bytes(order, self.length)
            + u32_bytes(order, self.window)
            + u32_bytes(order, self.parent)
            + u16_bytes(order, self.x)
            + u16_bytes(order, self.y)
    }

    /// Writes this record in `order`; it is 16 bytes long.
    pub fn encode(&self, order: ByteOrder) -> (r: Vec<u8>)
        ensures
            r@ == self.spec_encode(order),
            r@.len() == 16,
    {
        let mut out: Vec<u8> = Vec::new();
        out.push(self.opcode);
        put_zeros(&mut out, 1);
        put_u16(&mut out, order, self.length);
        put_u32(&mut out, order, self.window);
        put_u32(&mut out, order, self.parent);
        put_u16(&mut out, order, self.x);
        put_u16(&mut out, order, self.y);
        assert(out@ =~= self.spec_encode(order));
        out
    }
}

/// GetWindowAttributes.
#[derive(Debug, Clone, Copy, PartialEq, Eq, Structural)]
pub struct GetWindowAttributes {
    pub opcode: u8,
    pub length: u16,
    pub wid: u32,
}

impl GetWindowAttributes {
    /// The bytes of this record.
    pub open spec fn spec_encode(&self, order: ByteOrder) -> Seq<u8> {
        seq![self.opcode]
            + zeros(1)
            + u16_bytes(order, self.length)
            + u32_bytes(order, self.wid)
    }

    /// Writes this record in `order`; it is 8 bytes long.
    pub fn encode(&self, order: ByteOrder) -> (r: Vec<u8>)
        ensures
            r@ == self.spec_encode(order),
            r@.len() == 8,
    {
        let mut out: Vec<u8> = Vec::new();
        out.push(self.opcode);
        put_zeros(&mut out, 1);
        put_u16(&mut out, order, self.length);
        put_u32(&mut out, order, self.wid);
        assert(out@ =~= self.spec_encode(order));
        out
    }
}

/// The fixed part of ChangeWindowAttributes; the list of values follows it.
#[derive(Debug, Clone, Copy, PartialEq, Eq, Structural)]
pub struct ChangeWindowAttributes {
    pub opcode: u8,
    pub length: u16,
    pub wid: u32,
    pub mask: u32,
}

impl ChangeWindowAttributes {
    /// The bytes of this record.
    pub open spec fn spec_encode(&self, order: ByteOrder) -> Seq<u8> {
        seq![self.opcode]
            + zeros(1)
            + u16_bytes(order, self.length)
            + u32_bytes(order, self.wid)
            + u32_bytes(order, self.mask)
    }

    /// Writes this record in `order`; it is 12 bytes long.
    pub fn encode(&self, order: ByteOrder) -> (r: Vec<u8>)
        ensures
            r@ == self.spec_encode(order),
            r@.len() == 12,
    {
        let mut out: Vec<u8> = Vec::new();
        out.push(self.opcode);
        put_zeros(&mut out, 1);
        put_u16(&mut out, order, self.length);
        put_u32(&mut out, order, self.wid);
        put_u32(&mut out, order, self.mask);
        assert(out@ =~= self.spec_encode(order));
        out
    }
}

/// QueryPointer.
#[derive(Debug, Clone, Copy, PartialEq, Eq, Structural)]
pub struct QueryPointer {
    pub opcode: u8,
    pub length: u16,
    pub wid: u32,
}

impl QueryPointer {
    /// The bytes of this record.
    pub open spec fn spec_encode(&self, order: ByteOrder) -> Seq<u8> {
        seq![self.opcode]
            + zeros(1)
            + u16_bytes(order, self.length)
            + u32_bytes(order, self.wid)
    }

    /// Writes this record in `order`; it is 8 bytes long.
    pub fn encode(&self, order: ByteOrder) -> (r: Vec<u8>)
        ensures
            r@ == self.spec_encode(order),
            r@.len() == 8,
    {
        let mut out: Vec<u8> = Vec::new();
        out.push(self.opcode);
        put_zeros(&mut out, 1);
        put_u16(&mut out, order, self.length);
        put_u32(&mut out, order, self.wid);
        assert(out@ =~= self.spec_encode(order));
        out
    }
}

/// GetKeyboardMapping.
#[derive(Debug, Clone, Copy, PartialEq, Eq, Structural)]
pub struct GetKeyboardMapping {
    pub opcode: u8,
    pub length: u16,
    pub first: u8,
    pub count: u8,
}

impl GetKeyboardMapping {
    /// The bytes of this record.
    pub open spec fn spec_encode(&self, order: ByteOrder) -> Seq<u8> {
        seq![self.opcode]
            + zeros(1)
            + u16_bytes(order, self.length)
            + seq![self.first]
            + seq![self.count]
            + zeros(2)
    }

    /// Writes this record in `order`; it is 8 bytes long.
    pub fn encode(&self, order: ByteOrder) -> (r: Vec<u8>)
        ensures
            r@ == self.spec_encode(order),
            r@.len() == 8,
    {
        let mut out: Vec<u8> = Vec::new();
        out.push(self.opcode);
        put_zeros(&mut out, 1);
        put_u16(&mut out, order, self.length);
        out.push(self.first);
        out.push(self.count);
        put_zeros(&mut out, 2);
        assert(out@ =~= self.spec_encode(order));
        out
    }
}

/// GrabKey.
#[derive(Debug, Clone, Copy, PartialEq, Eq, Structural)]
pub struct GrabKey {
    pub opcode: u8,
    pub owner_events: u8,
    pub length: u16,
    pub grab_window: u32,
    pub modifiers: u16,
    pub key: u8,
    pub pointer_mode: u8,
    pub keyboard_mode: u8,
}

impl GrabKey {
    /// The bytes of this record.
    pub open spec fn spec_encode(&self, order: ByteOrder) -> Seq<u8> {
        seq![self.opcode]
            + seq![self.owner_events]
            + u16_bytes(order, self.length)
            + u32_bytes(order, self.grab_window)
            + u16_bytes(order, self.modifiers)
            + seq![self.key]
            + seq![self.pointer_mode]
            + seq![self.keyboard_mode]
            + zeros(3)
    }

    /// Writes this record in `order`; it is 16 bytes long.
    pub fn encode(&self, order: ByteOrder) -> (r: Vec<u8>)
        ensures
            r@ == self.spec_encode(order),
            r@.len() == 16,
    {
        let mut out: Vec<u8> = Vec::new();
        out.push(self.opcode);
        out.push(self.owner_events);
        put_u16(&mut out, order, self.length);
        put_u32(&mut out, order, self.grab_window);
        put_u16(&mut out, order, self.modifiers);
        out.push(self.key);
        out.push(self.pointer_mode);
        out.push(self.keyboard_mode);
        put_zeros(&mut out, 3);
        assert(out@ =~= self.spec_encode(order));
        out
    }
}

/// GrabButton.
#[derive(Debug, Clone, Copy, PartialEq, Eq, Structural)]
pub struct GrabButton {
    pub opcode: u8,
    pub owner_events: u8,
    pub length: u16,
    pub grab_window: u32,
    pub event_mask: u16,
    pub pointer_mode: u8,
    pub keyboard_mode: u8,
    pub confine_to: u32,
    pub cursor: u32,
    pub button: u8,
    pub modifiers: u16,
}

impl GrabButton {
    /// The bytes of this record.
    pub open spec fn spec_encode(&self, order: ByteOrder) -> Seq<u8> {
        seq![self.opcode]
            + seq![self.owner_events]
            + u16_bytes(order, self.length)
            + u32_bytes(order, self.grab_window)
            + u16_bytes(order, self.event_mask)
            + seq![self.pointer_mode]
            + seq![self.keyboard_mode]
            + u32_bytes(order, self.confine_to)
            + u32_bytes(order, self.cursor)
            + seq![self.button]
            + zeros(1)
            + u16_bytes(order, self.modifiers)
    }

    /// Writes this record in `order`; it is 24 bytes long.
    pub fn encode(&self, order: ByteOrder) -> (r: Vec<u8>)
        ensures
            r@ == self.spec_encode(order),
            r@.len() == 24,
    {
        let mut out: Vec<u8> = Vec::new();
        out.push(self.opcode);
        out.push(self.owner_events);
        put_u16(&mut out, order, self.length);
        put_u32(&mut out, order, self.grab_window);
        put_u16(&mut out, order, self.event_mask);
        out.push(self.pointer_mode);
        out.push(self.keyboard_mode);
        put_u32(&mut out, order, self.confine_to);
        put_u32(&mut out, order, self.cursor);
        out.push(self.button);
        put_zeros(&mut out, 1);
        put_u16(&mut out, order, self.modifiers);
        assert(out@ =~= self.spec_encode(order));
        out
    }
}

/// UngrabButton.
#[derive(Debug, Clone, Copy, PartialEq, Eq, Structural)]
pub struct UngrabButton {
    pub opcode: u8,
    pub button: u8,
    pub length: u16,
    pub grab_window: u32,
    pub modifiers: u16,
}

impl UngrabButton {
    /// The bytes of this record.
    pub open spec fn spec_encode(&self, order: ByteOrder) -> Seq<u8> {
        seq![self.opcode]
            + seq![self.button]
            + u16_bytes(order, self.length)
            + u32_bytes(order, self.grab_window)
            + u16_bytes(order, self.modifiers)
            + zeros(2)
    }

    /// Writes this record in `order`; it is 12 bytes long.
    pub fn encode(&self, order: ByteOrder) -> (r: Vec<u8>)
        ensures
            r@ == self.spec_encode(order),
            r@.len() == 12,
    {
        let mut out: Vec<u8> = Vec::new();
        out.push(self.opcode);
        out.push(self.button);
        put_u16(&mut out, order, self.length);
        put_u32(&mut out, order, self.grab_window);
        put_u16(&mut out, order, self.modifiers);
        put_zeros(&mut out, 2);
        assert(out@ =~= self.spec_encode(order));
        out
    }
}

/// GrabPointer.
#[derive(Debug, Clone, Copy, PartialEq, Eq, Structural)]
pub struct GrabPointer {
    pub opcode: u8,
    pub owner_events: u8,
    pub length: u16,
    pub grab_window: u32,
    pub event_mask: u16,
    pub pointer_mode: u8,
    pub keyboard_mode: u8,
    pub confine_to: u32,
    pub cursor: u32,
    pub time: u32,
}

impl GrabPointer {
    /// The bytes of this record.
    pub open spec fn spec_encode(&self, order: ByteOrder) -> Seq<u8> {
        seq![self.opcode]
            + seq![self.owner_events]
            + u16_bytes(order, self.length)
            + u32_bytes(order, self.grab_window)
            + u16_bytes(order, self.event_mask)
            + seq![self.pointer_mode]
            + seq![self.keyboard_mode]
            + u32_bytes(order, self.confine_to)
            + u32_bytes(order, self.cursor)
            + u32_bytes(order, self.time)
    }

    /// Writes this record in `order`; it is 24 bytes long.
    pub fn encode(&self, order: ByteOrder) -> (r: Vec<u8>)
        ensures
            r@ == self.spec_encode(order),
            r@.len() == 24,
    {
        let mut out: Vec<u8> = Vec::new();
        out.push(self.opcode);
        out.push(self.owner_events);
        put_u16(&mut out, order, self.length);
        put_u32(&mut out, order, self.grab_window);
        put_u16(&mut out, order, self.event_mask);
        out.push(self.pointer_mode);
        out.push(self.keyboard_mode);
        put_u32(&mut out, order, self.confine_to);
        put_u32(&mut out, order, self.cursor);
        put_u32(&mut out, order, self.time);
        assert(out@ =~= self.spec_encode(order));
        out
    }
}

/// UngrabPointer.
#[derive(Debug, Clone, Copy, PartialEq, Eq, Structural)]
pub struct UngrabPointer {
    pub opcode: u8,
    pub length: u16,
    pub time: u32,
}

impl UngrabPointer {
    /// The bytes of this record.
    pub open spec fn spec_encode(&self, order: ByteOrder) -> Seq<u8> {
        seq![self.opcode]
            + zeros(1)
            + u16_bytes(order, self.length)
            + u32_bytes(order, self.time)
    }

    /// Writes this record in `order`; it is 8 bytes long.
    pub fn encode(&self, order: ByteOrder) -> (r: Vec<u8>)
        ensures
            r@ == self.spec_encode(order),
            r@.len() == 8,
    {
        let mut out: Vec<u8> = Vec::new();
        out.push(self.opcode);
        put_zeros(&mut out, 1);
        put_u16(&mut out, order, self.length);
        put_u32(&mut out, order, self.time);
        assert(out@ =~= self.spec_encode(order));
        out
    }
}

/// The fixed part of ConfigureWindow; the list of values follows it.
#[derive(Debug, Clone, Copy, PartialEq, Eq, Structural)]
pub struct ConfigureWindow {
    pub opcode: u8,
    pub length: u16,
    pub wid: u32,
    pub mask: u16,
}

impl ConfigureWindow {
    /// The bytes of this record.
    pub open spec fn spec_encode(&self, order: ByteOrder) -> Seq<u8> {
        seq![self.opcode]
            + zeros(1)
            + u16_bytes(order, self.length)
            + u32_bytes(order, self.wid)
            + u16_bytes(order, self.mask)
            + zeros(2)
    }

    /// Writes this record in `order`; it is 12 bytes long.
    pub fn encode(&self, order: ByteOrder) -> (r: Vec<u8>)
        ensures
            r@ == self.spec_encode(order),
            r@.len() == 12,
    {
        let mut out: Vec<u8> = Vec::new();
        out.push(self.opcode);
        put_zeros(&mut out, 1);
        put_u16(&mut out, order, self.length);
        put_u32(&mut out, order, self.wid);
        put_u16(&mut out, order, self.mask);
        put_zeros(&mut out, 2);
        assert(out@ =~= self.spec_encode(order));
        out
    }
}

/// KillClient.
#[derive(Debug, Clone, Copy, PartialEq, Eq, Structural)]
pub struct KillClient {
    pub opcode: u8,
    pub length: u16,
    pub resource: u32,
}

impl KillClient {
    /// The bytes of this record.
    pub open spec fn spec_encode(&self, order: ByteOrder) -> Seq<u8> {
        seq![self.opcode]
            + zeros(1)
            + u16_bytes(order, self.length)
            + u32_bytes(order, self.resource)
    }

    /// Writes this record in `order`; it is 8 bytes long.
    pub fn encode(&self, order: ByteOrder) -> (r: Vec<u8>)
        ensures
            r@ == self.spec_encode(order),
            r@.len() == 8,
    {
        let mut out: Vec<u8> = Vec::new();
        out.push(self.opcode);
        put_zeros(&mut out, 1);
        put_u16(&mut out, order, self.length);
        put_u32(&mut out, order, self.resource);
        assert(out@ =~= self.spec_encode(order));
        out
    }
}

/// SetInputFocus.
#[derive(Debug, Clone, Copy, PartialEq, Eq, Structural)]
pub struct SetInputFocus {
    pub opcode: u8,
    pub revert_to: u8,
    pub length: u16,
    pub focus: u32,
    pub time: u32,
}

impl SetInputFocus {
    /// The bytes of this record.
    pub open spec fn spec_encode(&self, order: ByteOrder) -> Seq<u8> {
        seq![self.opcode]
            + seq![self.revert_to]
            + u16_bytes(order, self.length)
            + u32_bytes(order, self.focus)
            + u32_bytes(order, self.time)
    }

    /// Writes this record in `order`; it is 12 bytes long.
    pub fn encode(&self, order: ByteOrder) -> (r: Vec<u8>)
        ensures
            r@ == self.spec_encode(order),
            r@.len() == 12,
    {
        let mut out: Vec<u8> = Vec::new();
        out.push(self.opcode);
        out.push(self.revert_to);
        put_u16(&mut out, order, self.length);
        put_u32(&mut out, order, self.focus);
        put_u32(&mut out, order, self.time);
        assert(out@ =~= self.spec_encode(order));
        out
    }
}

/// GetInputFocus.
#[derive(Debug, Clone, Copy, PartialEq, Eq, Structural)]
pub struct GetInputFocus {
    pub opcode: u8,
    pub length: u16,
}

impl GetInputFocus {
    /// The bytes of this record.
    pub open spec fn spec_encode(&self, order: ByteOrder) -> Seq<u8> {
        seq![self.opcode]
            + zeros(1)
            + u16_bytes(order, self.length)
    }

    /// Writes this record in `order`; it is 4 bytes long.
    pub fn encode(&self, order: ByteOrder) -> (r: Vec<u8>)
        ensures
            r@ == self.spec_encode(order),
            r@.len() == 4,
    {
        let mut out: Vec<u8> = Vec::new();
        out.push(self.opcode);
        put_zeros(&mut out, 1);
        put_u16(&mut out, order, self.length);
        assert(out@ =~= self.spec_encode(order));
        out
    }
}

/// GetGeometry.
#[derive(Debug, Clone, Copy, PartialEq, Eq, Structural)]
pub struct GetGeometry {
    pub opcode: u8,
    pub length: u16,
    pub window: u32,
}

impl GetGeometry {
    /// The bytes of this record.
    pub open spec fn spec_encode(&self, order: ByteOrder) -> Seq<u8> {
        seq![self.opcode]
            + zeros(1)
            + u16_bytes(order, self.length)
            + u32_bytes(order, self.window)
    }

    /// Writes this record in `order`; it is 8 bytes long.
    pub fn encode(&self, order: ByteOrder) -> (r: Vec<u8>)
        ensures
            r@ == self.spec_encode(order),
            r@.len() == 8,
    {
        let mut out: Vec<u8> = Vec::new();
        out.push(self.opcode);
        put_zeros(&mut out, 1);
        put_u16(&mut out, order, self.length);
        put_u32(&mut out, order, self.window);
        assert(out@ =~= self.spec_encode(order));
        out
    }
}

/// SetSelectionOwner.
#[derive(Debug, Clone, Copy, PartialEq, Eq, Structural)]
pub struct SetSelectionOwner {
    pub opcode: u8,
    pub length: u16,
    pub owner: u32,
    pub selection: u32,
    pub time: u32,
}

impl SetSelectionOwner {
    /// The bytes of this record.
    pub open spec fn spec_encode(&self, order: ByteOrder) -> Seq<u8> {
        seq![self.opcode]
            + zeros(1)
            + u16_bytes(order, self.length)
            + u32_bytes(order, self.owner)
            + u32_bytes(order, self.selection)
            + u32_bytes(order, self.time)
    }

    /// Writes this record in `order`; it is 16 bytes long.
    pub fn encode(&self, order: ByteOrder) -> (r: Vec<u8>)
        ensures
            r@ == self.spec_encode(order),
            r@.len() == 16,
    {
        let mut out: Vec<u8> = Vec::new();
        out.push(self.opcode);
        put_zeros(&mut out, 1);
        put_u16(&mut out, order, self.length);
        put_u32(&mut out, order, self.owner);
        put_u32(&mut out, order, self.selection);
        put_u32(&mut out, order, self.time);
        assert(out@ =~= self.spec_encode(order));
        out
    }
}

/// GetSelectionOwner.
#[derive(Debug, Clone, Copy, PartialEq, Eq, Structural)]
pub struct GetSelectionOwner {
    pub opcode: u8,
    pub length: u16,
    pub selection: u32,
}

impl GetSelectionOwner {
    /// The bytes of this record.
    pub open spec fn spec_encode(&self, order: ByteOrder) -> Seq<u8> {
        seq![self.opcode]
            + zeros(1)
            + u16_bytes(order, self.length)
            + u32_bytes(order, self.selection)
    }

    /// Writes this record in `order`; it is 8 bytes long.
    pub fn encode(&self, order: ByteOrder) -> (r: Vec<u8>)
        ensures
            r@ == self.spec_encode(order),
            r@.len() == 8,
    {
        let mut out: Vec<u8> = Vec::new();
        out.push(self.opcode);
        put_zeros(&mut out, 1);
        put_u16(&mut out, order, self.length);
        put_u32(&mut out, order, self.selection);
        assert(out@ =~= self.spec_encode(order));
        out
    }
}

/// ConvertSelection.
#[derive(Debug, Clone, Copy, PartialEq, Eq, Structural)]
pub struct ConvertSelection {
    pub opcode: u8,
    pub length: u16,
    pub requestor: u32,
    pub selection: u32,
    pub target: u32,
    pub property: u32,
    pub time: u32,
}

impl ConvertSelection {
    /// The bytes of this record.
    pub open spec fn spec_encode(&self, order: ByteOrder) -> Seq<u8> {
        seq![self.opcode]
            + zeros(1)
            + u16_bytes(order, self.length)
            + u32_bytes(order, self.requestor)
            + u32_bytes(order, self.selection)
            + u32_bytes(order, self.target)
            + u32_bytes(order, self.property)
            + u32_bytes(order, self.time)
    }

    /// Writes this record in `order`; it is 24 bytes long.
    pub fn encode(&self, order: ByteOrder) -> (r: Vec<u8>)
        ensures
            r@ == self.spec_encode(order),
            r@.len() == 24,
    {
        let mut out: Vec<u8> = Vec::new();
        out.push(self.opcode);
        put_zeros(&mut out, 1);
        put_u16(&mut out, order, self.length);
        put_u32(&mut out, order, self.requestor);
        put_u32(&mut out, order, self.selection);
        put_u32(&mut out, order, self.target);
        put_u32(&mut out, order, self.property);
        put_u32(&mut out, order, self.time);
        assert(out@ =~= self.spec_encode(order));
        out
    }
}

/// The fixed part of SendEvent; the 32-byte event follows it.
#[derive(Debug, Clone, Copy, PartialEq, Eq, Structural)]
pub struct SendEvent {
    pub opcode: u8,
    pub propogate: u8,
    pub length: u16,
    pub destination: u32,
    pub event_mask: u32,
}

impl SendEvent {
    /// The bytes of this record.
    pub open spec fn spec_encode(&self, order: ByteOrder) -> Seq<u8> {
        seq![self.opcode]
            + seq![self.propogate]
            + u16_bytes(order, self.length)
            + u32_bytes(order, self.destination)
            + u32_bytes(order, self.event_mask)
    }

    /// Writes this record in `order`; it is 12 bytes long.
    pub fn encode(&self, order: ByteOrder) -> (r: Vec<u8>)
        ensures
            r@ == self.spec_encode(order),
            r@.len() == 12,
    {
        let mut out: Vec<u8> = Vec::new();
        out.push(self.opcode);
        out.push(self.propogate);
        put_u16(&mut out, order, self.length);
        put_u32(&mut out, order, self.destination);
        put_u32(&mut out, order, self.event_mask);
        assert(out@ =~= self.spec_encode(order));
        out
    }
}

/// The fixed part of QueryExtension; the name follows it.
#[derive(Debug, Clone, Copy, PartialEq, Eq, Structural)]
pub struct QueryExtension {
    pub opcode: u8,
    pub length: u16,
    pub name_len: u16,
}

impl QueryExtension {
    /// The bytes of this record.
    pub open spec fn spec_encode(&self, order: ByteOrder) -> Seq<u8> {
        seq![self.opcode]
            + zeros(1)
            + u16_bytes(order, self.length)
            + u16_bytes(order, self.name_len)
            + zeros(2)
    }

    /// Writes this record in `order`; it is 8 bytes long.
    pub fn encode(&self, order: ByteOrder) -> (r: Vec<u8>)
        ensures
            r@ == self.spec_encode(order),
            r@.len() == 8,
    {
        let mut out: Vec<u8> = Vec::new();
        out.push(self.opcode);
        put_zeros(&mut out, 1);
        put_u16(&mut out, order, self.length);
        put_u16(&mut out, order, self.name_len);
        put_zeros(&mut out, 2);
        assert(out@ =~= self.spec_encode(order));
        out
    }
}

/// A request of an extension with no argument.
#[derive(Debug, Clone, Copy, PartialEq, Eq, Structural)]
pub struct ExtensionRequest {
    pub opcode: u8,
    pub minor: u8,
    pub length: u16,
}

impl ExtensionRequest {
    /// The bytes of this record.
    pub open spec fn spec_encode(&self, order: ByteOrder) -> Seq<u8> {
        seq![self.opcode]
            + seq![self.minor]
            + u16_bytes(order, self.length)
    }

    /// Writes this record in `order`; it is 4 bytes long.
    pub fn encode(&self, order: ByteOrder) -> (r: Vec<u8>)
        ensures
            r@ == self.spec_encode(order),
            r@.len() == 4,
    {
        let mut out: Vec<u8> = Vec::new();
        out.push(self.opcode);
        out.push(self.minor);
        put_u16(&mut out, order, self.length);
        assert(out@ =~= self.spec_encode(order));
        out
    }
}

/// The first four bytes of every record.
#[derive(Debug, Clone, Copy, PartialEq, Eq, Structural)]
pub struct GenericEvent {
    pub opcode: u8,
    pub detail: u8,
    pub sequence: u16,
}

impl GenericEvent {
    /// The bytes of this record.
    pub open spec fn spec_encode(&self, order: ByteOrder) -> Seq<u8> {
        seq![self.opcode]
            + seq![self.detail]
            + u16_bytes(order, self.sequence)
    }

    /// Writes this record in `order`; it is 4 bytes long.
    pub fn encode(&self, order: ByteOrder) -> (r: Vec<u8>)
        ensures
            r@ == self.spec_encode(order),
            r@.len() == 4,
    {
        let mut out: Vec<u8> = Vec::new();
        out.push(self.opcode);
        out.push(self.detail);
        put_u16(&mut out, order, self.sequence);
        assert(out@ =~= self.spec_encode(order));
        out
    }
}

impl GenericEvent {
    /// This record as the first 4 bytes of `b` hold it.
    pub open spec fn spec_decode(b: Seq<u8>, order: ByteOrder) -> GenericEvent {
        GenericEvent {
            opcode: b[0],
            detail: b[1],
            sequence: u16_at(order, b, 2),
        }
    }

    /// Reads this record from the first 4 bytes of `b`.
    pub fn decode(b: &[u8], order: ByteOrder) -> (r: GenericEvent)
        requires
            b@.len() >= 4,
        ensures
            r == GenericEvent::spec_decode(b@, order),
    {
        GenericEvent {
            opcode: b[0],
            detail: b[1],
            sequence: get_u16(b, 2, order),
        }
    }
}

/// The head of the server's answer to the setup request.
#[derive(Debug, Clone, Copy, PartialEq, Eq, Structural)]
pub struct SetupResponse {
    pub status: u8,
    pub padding: u8,
    pub major_version: u16,
    pub minor_version: u16,
    pub length: u16,
}

impl SetupResponse {
    /// This record as the first 8 bytes of `b` hold it.
    pub open spec fn spec_decode(b: Seq<u8>, order: ByteOrder) -> SetupResponse {
        SetupResponse {
            status: b[0],
            padding: b[1],
            major_version: u16_at(order, b, 2),
            minor_version: u16_at(order, b, 4),
            length: u16_at(order, b, 6),
        }
    }

    /// Reads this record from the first 8 bytes of `b`.
    pub fn decode(b: &[u8], order: ByteOrder) -> (r: SetupResponse)
        requires
            b@.len() >= 8,
        ensures
            r == SetupResponse::spec_decode(b@, order),
    {
        SetupResponse {
            status: b[0],
            padding: b[1],
            major_version: get_u16(b, 2, order),
            minor_version: get_u16(b, 4, order),
            length: get_u16(b, 6, order),
        }
    }
}

/// The fixed part of an accepted setup.
#[derive(Debug, Clone, Copy, PartialEq, Eq, Structural)]
pub struct SuccessResponse {
    pub release_number: u32,
    pub resource_id_base: u32,
    pub resource_id_mask: u32,
    pub motion_buffer_size: u32,
    pub vendor_len: u16,
    pub maximum_request_len: u16,
    pub roots_len: u8,
    pub pixmap_formats_len: u8,
    pub image_byte_order: u8,
    pub bitmap_format_bit_order: u8,
    pub bitmap_format_scanline_unit: u8,
    pub bitmap_format_scanline_pad: u8,
    pub min_keycode: u8,
    pub max_keycode: u8,
}

impl SuccessResponse {
    /// This record as the first 32 bytes of `b` hold it.
    pub open spec fn spec_decode(b: Seq<u8>, order: ByteOrder) -> SuccessResponse {
        SuccessResponse {
            release_number: u32_at(order, b, 0),
            resource_id_base: u32_at(order, b, 4),
            resource_id_mask: u32_at(order, b, 8),
            motion_buffer_size: u32_at(order, b, 12),
            vendor_len: u16_at(order, b, 16),
            maximum_request_len: u16_at(order, b, 18),
            roots_len: b[20],
            pixmap_formats_len: b[21],
            image_byte_order: b[22],
            bitmap_format_bit_order: b[23],
            bitmap_format_scanline_unit: b[24],
            bitmap_format_scanline_pad: b[25],
            min_keycode: b[26],
            max_keycode: b[27],
        }
    }

    /// Reads this record from the first 32 bytes of `b`.
    pub fn decode(b: &[u8], order: ByteOrder) -> (r: SuccessResponse)
        requires
            b@.len() >= 32,
        ensures
            r == SuccessResponse::spec_decode(b@, order),
    {
        SuccessResponse {
            release_number: get_u32(b, 0, order),
            resource_id_base: get_u32(b, 4, order),
            resource_id_mask: get_u32(b, 8, order),
            motion_buffer_size: get_u32(b, 12, order),
            vendor_len: get_u16(b, 16, order),
            maximum_request_len: get_u16(b, 18, order),
            roots_len: b[20],
            pixmap_formats_len: b[21],
            image_byte_order: b[22],
            bitmap_format_bit_order: b[23],
            bitmap_format_scanline_unit: b[24],
            bitmap_format_scanline_pad: b[25],
            min_keycode: b[26],
            max_keycode: b[27],
        }
    }
}

/// One pixmap format of the setup.
#[derive(Debug, Clone, Copy, PartialEq, Eq, Structural)]
pub struct PixmapFormat {
    pub depth: u8,
    pub bits_per_pixel: u8,
    pub scanline_pad: u8,
}

impl PixmapFormat {
    /// This record as the first 8 bytes of `b` hold it.
    pub open spec fn spec_decode(b: Seq<u8>, order: ByteOrder) -> PixmapFormat {
        PixmapFormat {
            depth: b[0],
            bits_per_pixel: b[1],
            scanline_pad: b[2],
        }
    }

    /// Reads this record from the first 8 bytes of `b`.
    pub fn decode(b: &[u8], order: ByteOrder) -> (r: PixmapFormat)
        requires
            b@.len() >= 8,
        ensures
            r == PixmapFormat::spec_decode(b@, order),
    {
        PixmapFormat {
            depth: b[0],
            bits_per_pixel: b[1],
            scanline_pad: b[2],
        }
    }
}

/// The fixed part of one screen of the setup.
#[derive(Debug, Clone, Copy, PartialEq, Eq, Structural)]
pub struct ScreenResponse {
    pub root: u32,
    pub default_colormap: u32,
    pub white_pixel: u32,
    pub black_pixel: u32,
    pub current_input_mask: u32,
    pub width_in_pixels: u16,
    pub height_in_pixels: u16,
    pub width_in_mm: u16,
    pub height_in_mm: u16,
    pub min_installed_maps: u16,
    pub max_installed_maps: u16,
    pub root_visual: u32,
    pub backing_stores: u8,
    pub save_unders: u8,
    pub root_depth: u8,
    pub allowed_depths_len: u8,
}

impl ScreenResponse {
    /// This record as the first 40 bytes of `b` hold it.
    pub open spec fn spec_decode(b: Seq<u8>, order: ByteOrder) -> ScreenResponse {
        ScreenResponse {
            root: u32_at(order, b, 0),
            default_colormap: u32_at(order, b, 4),
            white_pixel: u32_at(order, b, 8),
            black_pixel: u32_at(order, b, 12),
            current_input_mask: u32_at(order, b, 16),
            width_in_pixels: u16_at(order, b, 20),
            height_in_pixels: u16_at(order, b, 22),
            width_in_mm: u16_at(order, b, 24),
            height_in_mm: u16_at(order, b, 26),
            min_installed_maps: u16_at(order, b, 28),
            max_installed_maps: u16_at(order, b, 30),
            root_visual: u32_at(order, b, 32),
            backing_stores: b[36],
            save_unders: b[37],
            root_depth: b[38],
            allowed_depths_len: b[39],
        }
    }

    /// Reads this record from the first 40 bytes of `b`.
    pub fn decode(b: &[u8], order: ByteOrder) -> (r: ScreenResponse)
        requires
            b@.len() >= 40,
        ensures
            r == ScreenResponse::spec_decode(b@, order),
    {
        ScreenResponse {
            root: get_u32(b, 0, order),
            default_colormap: get_u32(b, 4, order),
            white_pixel: get_u32(b, 8, order),
            black_pixel: get_u32(b, 12, order),
            current_input_mask: get_u32(b, 16, order),
            width_in_pixels: get_u16(b, 20, order),
            height_in_pixels: get_u16(b, 22, order),
            width_in_mm: get_u16(b, 24, order),
            height_in_mm: get_u16(b, 26, order),
            min_installed_maps: get_u16(b, 28, order),
            max_installed_maps: get_u16(b, 30, order),
            root_visual: get_u32(b, 32, order),
            backing_stores: b[36],
            save_unders: b[37],
            root_depth: b[38],
            allowed_depths_len: b[39],
        }
    }
}

/// The fixed part of one depth of a screen.
#[derive(Debug, Clone, Copy, PartialEq, Eq, Structural)]
pub struct DepthResponse {
    pub depth: u8,
    pub visuals_len: u16,
}

impl DepthResponse {
    /// This record as the first 8 bytes of `b` hold it.
    pub open spec fn spec_decode(b: Seq<u8>, order: ByteOrder) -> DepthResponse {
        DepthResponse {
            depth: b[0],
            visuals_len: u16_at(order, b, 2),
        }
    }

    /// Reads this record from the first 8 bytes of `b`.
    pub fn decode(b: &[u8], order: ByteOrder) -> (r: DepthResponse)
        requires
            b@.len() >= 8,
        ensures
            r == DepthResponse::spec_decode(b@, order),
    {
        DepthResponse {
            depth: b[0],
            visuals_len: get_u16(b, 2, order),
        }
    }
}

/// One visual of a depth.
#[derive(Debug, Clone, Copy, PartialEq, Eq, Structural)]
pub struct VisualResponse {
    pub visual_id: u32,
    pub class: u8,
    pub bits_per_rgb_value: u8,
    pub colormap_entries: u16,
    pub red_mask: u32,
    pub green_mask: u32,
    pub blue_mask: u32,
}

impl VisualResponse {
    /// This record as the first 24 bytes of `b` hold it.
    pub open spec fn spec_decode(b: Seq<u8>, order: ByteOrder) -> VisualResponse {
        VisualResponse {
            visual_id: u32_at(order, b, 0),
            class: b[4],
            bits_per_rgb_value: b[5],
            colormap_entries: u16_at(order, b, 6),
            red_mask: u32_at(order, b, 8),
            green_mask: u32_at(order, b, 12),
            blue_mask: u32_at(order, b, 16),
        }
    }

    /// Reads this record from the first 24 bytes of `b`.
    pub fn decode(b: &[u8], order: ByteOrder) -> (r: VisualResponse)
        requires
            b@.len() >= 24,
        ensures
            r == VisualResponse::spec_decode(b@, order),
    {
        VisualResponse {
            visual_id: get_u32(b, 0, order),
            class: b[4],
            bits_per_rgb_value: b[5],
            colormap_entries: get_u16(b, 6, order),
            red_mask: get_u32(b, 8, order),
            green_mask: get_u32(b, 12, order),
            blue_mask: get_u32(b, 16, order),
        }
    }
}

/// An error record.
#[derive(Debug, Clone, Copy, PartialEq, Eq, Structural)]
pub struct ErrorEvent {
    pub bad_value: u32,
    pub minor_opcode: u16,
    pub major_opcode: u8,
}

impl ErrorEvent {
    /// This record as the first 32 bytes of `b` hold it.
    pub open spec fn spec_decode(b: Seq<u8>, order: ByteOrder) -> ErrorEvent {
        ErrorEvent {
            bad_value: u32_at(order, b, 4),
            minor_opcode: u16_at(order, b, 8),
            major_opcode: b[10],
        }
    }

    /// Reads this record from the first 32 bytes of `b`.
    pub fn decode(b: &[u8], order: ByteOrder) -> (r: ErrorEvent)
        requires
            b@.len() >= 32,
        ensures
            r == ErrorEvent::spec_decode(b@, order),
    {
        ErrorEvent {
            bad_value: get_u32(b, 4, order),
            minor_opcode: get_u16(b, 8, order),
            major_opcode: b[10],
        }
    }
}

/// A key press or release.
#[derive(Debug, Clone, Copy, PartialEq, Eq, Structural)]
pub struct KeyEvent {
    pub time: u32,
    pub root: u32,
    pub event: u32,
    pub child: u32,
    pub root_x: u16,
    pub root_y: u16,
    pub event_x: u16,
    pub event_y: u16,
    pub state: u16,
    pub same_screen: u8,
}

impl KeyEvent {
    /// This record as the first 32 bytes of `b` hold it.
    pub open spec fn spec_decode(b: Seq<u8>, order: ByteOrder) -> KeyEvent {
        KeyEvent {
            time: u32_at(order, b, 4),
            root: u32_at(order, b, 8),
            event: u32_at(order, b, 12),
            child: u32_at(order, b, 16),
            root_x: u16_at(order, b, 20),
            root_y: u16_at(order, b, 22),
            event_x: u16_at(order, b, 24),
            event_y: u16_at(order, b, 26),
            state: u16_at(order, b, 28),
            same_screen: b[30],
        }
    }

    /// Reads this record from the first 32 bytes of `b`.
    pub fn decode(b: &[u8], order: ByteOrder) -> (r: KeyEvent)
        requires
            b@.len() >= 32,
        ensures
            r == KeyEvent::spec_decode(b@, order),
    {
        KeyEvent {
            time: get_u32(b, 4, order),
            root: get_u32(b, 8, order),
            event: get_u32(b, 12, order),
            child: get_u32(b, 16, order),
            root_x: get_u16(b, 20, order),
            root_y: get_u16(b, 22, order),
            event_x: get_u16(b, 24, order),
            event_y: get_u16(b, 26, order),
            state: get_u16(b, 28, order),
            same_screen: b[30],
        }
    }
}

/// A button press or release, or a pointer motion.
#[derive(Debug, Clone, Copy, PartialEq, Eq, Structural)]
pub struct ButtonEvent {
    pub time: u32,
    pub root: u32,
    pub event: u32,
    pub child: u32,
    pub root_x: u16,
    pub root_y: u16,
    pub event_x: u16,
    pub event_y: u16,
    pub state: u16,
    pub same_screen: u8,
}

impl ButtonEvent {
    /// This record as the first 32 bytes of `b` hold it.
    pub open spec fn spec_decode(b: Seq<u8>, order: ByteOrder) -> ButtonEvent {
        ButtonEvent {
            time: u32_at(order, b, 4),
            root: u32_at(order, b, 8),
            event: u32_at(order, b, 12),
            child: u32_at(order, b, 16),
            root_x: u16_at(order, b, 20),
            root_y: u16_at(order, b, 22),
            event_x: u16_at(order, b, 24),
            event_y: u16_at(order, b, 26),
            state: u16_at(order, b, 28),
            same_screen: b[30],
        }
    }

    /// Reads this record from the first 32 bytes of `b`.
    pub fn decode(b: &[u8], order: ByteOrder) -> (r: ButtonEvent)
        requires
            b@.len() >= 32,
        ensures
            r == ButtonEvent::spec_decode(b@, order),
    {
        ButtonEvent {
            time: get_u32(b, 4, order),
            root: get_u32(b, 8, order),
            event: get_u32(b, 12, order),
            child: get_u32(b, 16, order),
            root_x: get_u16(b, 20, order),
            root_y: get_u16(b, 22, order),
            event_x: get_u16(b, 24, order),
            event_y: get_u16(b, 26, order),
            state: get_u16(b, 28, order),
            same_screen: b[30],
        }
    }
}

/// The pointer entering or leaving a window.
#[derive(Debug, Clone, Copy, PartialEq, Eq, Structural)]
pub struct EnterNotify {
    pub time: u32,
    pub root: u32,
    pub event: u32,
    pub child: u32,
    pub root_x: u16,
    pub root_y: u16,
    pub event_x: u16,
    pub event_y: u16,
    pub state: u16,
    pub mode: u8,
    pub sf: u8,
}

impl EnterNotify {
    /// This record as the first 32 bytes of `b` hold it.
    pub open spec fn spec_decode(b: Seq<u8>, order: ByteOrder) -> EnterNotify {
        EnterNotify {
            time: u32_at(order, b, 4),
            root: u32_at(order, b, 8),
            event: u32_at(order, b, 12),
            child: u32_at(order, b, 16),
            root_x: u16_at(order, b, 20),
            root_y: u16_at(order, b, 22),
            event_x: u16_at(order, b, 24),
            event_y: u16_at(order, b, 26),
            state: u16_at(order, b, 28),
            mode: b[30],
            sf: b[31],
        }
    }

    /// Reads this record from the first 32 bytes of `b`.
    pub fn decode(b: &[u8], order: ByteOrder) -> (r: EnterNotify)
        requires
            b@.len() >= 32,
        ensures
            r == EnterNotify::spec_decode(b@, order),
    {
        EnterNotify {
            time: get_u32(b, 4, order),
            root: get_u32(b, 8, order),
            event: get_u32(b, 12, order),
            child: get_u32(b, 16, order),
            root_x: get_u16(b, 20, order),
            root_y: get_u16(b, 22, order),
            event_x: get_u16(b, 24, order),
            event_y: get_u16(b, 26, order),
            state: get_u16(b, 28, order),
            mode: b[30],
            sf: b[31],
        }
    }
}

/// A window gaining the input focus.
#[derive(Debug, Clone, Copy, PartialEq, Eq, Structural)]
pub struct FocusIn {
    pub event: u32,
    pub mode: u8,
}

impl FocusIn {
    /// This record as the first 32 bytes of `b` hold it.
    pub open spec fn spec_decode(b: Seq<u8>, order: ByteOrder) -> FocusIn {
        FocusIn {
            event: u32_at(order, b, 4),
            mode: b[8],
        }
    }

    /// Reads this record from the first 32 bytes of `b`.
    pub fn decode(b: &[u8], order: ByteOrder) -> (r: FocusIn)
        requires
            b@.len() >= 32,
        ensures
            r == FocusIn::spec_decode(b@, order),
    {
        FocusIn {
            event: get_u32(b, 4, order),
            mode: b[8],
        }
    }
}

/// A window losing the input focus.
#[derive(Debug, Clone, Copy, PartialEq, Eq, Structural)]
pub struct FocusOut {
    pub event: u32,
    pub mode: u8,
}

impl FocusOut {
    /// This record as the first 32 bytes of `b` hold it.
    pub open spec fn spec_decode(b: Seq<u8>, order: ByteOrder) -> FocusOut {
        FocusOut {
            event: u32_at(order, b, 4),
            mode: b[8],
        }
    }

    /// Reads this record from the first 32 bytes of `b`.
    pub fn decode(b: &[u8], order: ByteOrder) -> (r: FocusOut)
        requires
            b@.len() >= 32,
        ensures
            r == FocusOut::spec_decode(b@, order),
    {
        FocusOut {
            event: get_u32(b, 4, order),
            mode: b[8],
        }
    }
}

/// A window created.
#[derive(Debug, Clone, Copy, PartialEq, Eq, Structural)]
pub struct CreateNotify {
    pub event: u32,
    pub window: u32,
    pub x: u16,
    pub y: u16,
    pub width: u16,
    pub height: u16,
    pub border_width: u16,
    pub override_redirect: u8,
}

impl CreateNotify {
    /// This record as the first 32 bytes of `b` hold it.
    pub open spec fn spec_decode(b: Seq<u8>, order: ByteOrder) -> CreateNotify {
        CreateNotify {
            event: u32_at(order, b, 4),
            window: u32_at(order, b, 8),
            x: u16_at(order, b, 12),
            y: u16_at(order, b, 14),
            width: u16_at(order, b, 16),
            height: u16_at(order, b, 18),
            border_width: u16_at(order, b, 20),
            override_redirect: b[22],
        }
    }

    /// Reads this record from the first 32 bytes of `b`.
    pub fn decode(b: &[u8], order: ByteOrder) -> (r: CreateNotify)
        requires
            b@.len() >= 32,
        ensures
            r == CreateNotify::spec_decode(b@, order),
    {
        CreateNotify {
            event: get_u32(b, 4, order),
            window: get_u32(b, 8, order),
            x: get_u16(b, 12, order),
            y: get_u16(b, 14, order),
            width: get_u16(b, 16, order),
            height: get_u16(b, 18, order),
            border_width: get_u16(b, 20, order),
            override_redirect: b[22],
        }
    }
}

/// A window destroyed.
#[derive(Debug, Clone, Copy, PartialEq, Eq, Structural)]
pub struct DestroyNotify {
    pub event: u32,
    pub window: u32,
}

impl DestroyNotify {
    /// This record as the first 32 bytes of `b` hold it.
    pub open spec fn spec_decode(b: Seq<u8>, order: ByteOrder) -> DestroyNotify {
        DestroyNotify {
            event: u32_at(order, b, 4),
            window: u32_at(order, b, 8),
        }
    }

    /// Reads this record from the first 32 bytes of `b`.
    pub fn decode(b: &[u8], order: ByteOrder) -> (r: DestroyNotify)
        requires
            b@.len() >= 32,
        ensures
            r == DestroyNotify::spec_decode(b@, order),
    {
        DestroyNotify {
            event: get_u32(b, 4, order),
            window: get_u32(b, 8, order),
        }
    }
}

/// A window unmapped.
#[derive(Debug, Clone, Copy, PartialEq, Eq, Structural)]
pub struct UnmapNotify {
    pub event: u32,
    pub window: u32,
    pub from_configure: u8,
}

impl UnmapNotify {
    /// This record as the first 32 bytes of `b` hold it.
    pub open spec fn spec_decode(b: Seq<u8>, order: ByteOrder) -> UnmapNotify {
        UnmapNotify {
            event: u32_at(order, b, 4),
            window: u32_at(order, b, 8),
            from_configure: b[12],
        }
    }

    /// Reads this record from the first 32 bytes of `b`.
    pub fn decode(b: &[u8], order: ByteOrder) -> (r: UnmapNotify)
        requires
            b@.len() >= 32,
        ensures
            r == UnmapNotify::spec_decode(b@, order),
    {
        UnmapNotify {
            event: get_u32(b, 4, order),
            window: get_u32(b, 8, order),
            from_configure: b[12],
        }
    }
}

/// A window mapped.
#[derive(Debug, Clone, Copy, PartialEq, Eq, Structural)]
pub struct MapNotify {
    pub event: u32,
    pub window: u32,
    pub override_redirect: u8,
}

impl MapNotify {
    /// This record as the first 32 bytes of `b` hold it.
    pub open spec fn spec_decode(b: Seq<u8>, order: ByteOrder) -> MapNotify {
        MapNotify {
            event: u32_at(order, b, 4),
            window: u32_at(order, b, 8),
            override_redirect: b[12],
        }
    }

    /// Reads this record from the first 32 bytes of `b`.
    pub fn decode(b: &[u8], order: ByteOrder) -> (r: MapNotify)
        requires
            b@.len() >= 32,
        ensures
            r == MapNotify::spec_decode(b@, order),
    {
        MapNotify {
            event: get_u32(b, 4, order),
            window: get_u32(b, 8, order),
            override_redirect: b[12],
        }
    }
}

/// A request to map a window, redirected to its manager.
#[derive(Debug, Clone, Copy, PartialEq, Eq, Structural)]
pub struct MapReq {
    pub parent: u32,
    pub window: u32,
}

impl MapReq {
    /// This record as the first 32 bytes of `b` hold it.
    pub open spec fn spec_decode(b: Seq<u8>, order: ByteOrder) -> MapReq {
        MapReq {
            parent: u32_at(order, b, 4),
            window: u32_at(order, b, 8),
        }
    }

    /// Reads this record from the first 32 bytes of `b`.
    pub fn decode(b: &[u8], order: ByteOrder) -> (r: MapReq)
        requires
            b@.len() >= 32,
        ensures
            r == MapReq::spec_decode(b@, order),
    {
        MapReq {
            parent: get_u32(b, 4, order),
            window: get_u32(b, 8, order),
        }
    }
}

/// A window given a new parent.
#[derive(Debug, Clone, Copy, PartialEq, Eq, Structural)]
pub struct ReparentNotify {
    pub event: u32,
    pub window: u32,
    pub parent: u32,
    pub x: u16,
    pub y: u16,
    pub override_redirect: u8,
}

impl ReparentNotify {
    /// This record as the first 32 bytes of `b` hold it.
    pub open spec fn spec_decode(b: Seq<u8>, order: ByteOrder) -> ReparentNotify {
        ReparentNotify {
            event: u32_at(order, b, 4),
            window: u32_at(order, b, 8),
            parent: u32_at(order, b, 12),
            x: u16_at(order, b, 16),
            y: u16_at(order, b, 18),
            override_redirect: b[20],
        }
    }

    /// Reads this record from the first 32 bytes of `b`.
    pub fn decode(b: &[u8], order: ByteOrder) -> (r: ReparentNotify)
        requires
            b@.len() >= 32,
        ensures
            r == ReparentNotify::spec_decode(b@, order),
    {
        ReparentNotify {
            event: get_u32(b, 4, order),
            window: get_u32(b, 8, order),
            parent: get_u32(b, 12, order),
            x: get_u16(b, 16, order),
            y: get_u16(b, 18, order),
            override_redirect: b[20],
        }
    }
}

/// A window reconfigured.
#[derive(Debug, Clone, Copy, PartialEq, Eq, Structural)]
pub struct ConfigNotify {
    pub event: u32,
    pub window: u32,
    pub above_sibling: u32,
    pub x: u16,
    pub y: u16,
    pub width: u16,
    pub height: u16,
    pub border_width: u16,
    pub override_redirect: u8,
}

impl ConfigNotify {
    /// This record as the first 32 bytes of `b` hold it.
    pub open spec fn spec_decode(b: Seq<u8>, order: ByteOrder) -> ConfigNotify {
        ConfigNotify {
            event: u32_at(order, b, 4),
            window: u32_at(order, b, 8),
            above_sibling: u32_at(order, b, 12),
            x: u16_at(order, b, 16),
            y: u16_at(order, b, 18),
            width: u16_at(order, b, 20),
            height: u16_at(order, b, 22),
            border_width: u16_at(order, b, 24),
            override_redirect: b[26],
        }
    }

    /// Reads this record from the first 32 bytes of `b`.
    pub fn decode(b: &[u8], order: ByteOrder) -> (r: ConfigNotify)
        requires
            b@.len() >= 32,
        ensures
            r == ConfigNotify::spec_decode(b@, order),
    {
        ConfigNotify {
            event: get_u32(b, 4, order),
            window: get_u32(b, 8, order),
            above_sibling: get_u32(b, 12, order),
            x: get_u16(b, 16, order),
            y: get_u16(b, 18, order),
            width: get_u16(b, 20, order),
            height: get_u16(b, 22, order),
            border_width: get_u16(b, 24, order),
            override_redirect: b[26],
        }
    }
}

/// A request to configure a window, redirected to its manager.
#[derive(Debug, Clone, Copy, PartialEq, Eq, Structural)]
pub struct ConfigReq {
    pub parent: u32,
    pub window: u32,
    pub sibling: u32,
    pub x: u16,
    pub y: u16,
    pub width: u16,
    pub height: u16,
    pub border_width: u16,
    pub value_mask: u16,
}

impl ConfigReq {
    /// This record as the first 32 bytes of `b` hold it.
    pub open spec fn spec_decode(b: Seq<u8>, order: ByteOrder) -> ConfigReq {
        ConfigReq {
            parent: u32_at(order, b, 4),
            window: u32_at(order, b, 8),
            sibling: u32_at(order, b, 12),
            x: u16_at(order, b, 16),
            y: u16_at(order, b, 18),
            width: u16_at(order, b, 20),
            height: u16_at(order, b, 22),
            border_width: u16_at(order, b, 24),
            value_mask: u16_at(order, b, 26),
        }
    }

    /// Reads this record from the first 32 bytes of `b`.
    pub fn decode(b: &[u8], order: ByteOrder) -> (r: ConfigReq)
        requires
            b@.len() >= 32,
        ensures
            r == ConfigReq::spec_decode(b@, order),
    {
        ConfigReq {
            parent: get_u32(b, 4, order),
            window: get_u32(b, 8, order),
            sibling: get_u32(b, 12, order),
            x: get_u16(b, 16, order),
            y: get_u16(b, 18, order),
            width: get_u16(b, 20, order),
            height: get_u16(b, 22, order),
            border_width: get_u16(b, 24, order),
            value_mask: get_u16(b, 26, order),
        }
    }
}

/// A window moved by its gravity.
#[derive(Debug, Clone, Copy, PartialEq, Eq, Structural)]
pub struct GravityNotify {
    pub event: u32,
    pub window: u32,
    pub x: u16,
    pub y: u16,
}

impl GravityNotify {
    /// This record as the first 32 bytes of `b` hold it.
    pub open spec fn spec_decode(b: Seq<u8>, order: ByteOrder) -> GravityNotify {
        GravityNotify {
            event: u32_at(order, b, 4),
            window: u32_at(order, b, 8),
            x: u16_at(order, b, 12),
            y: u16_at(order, b, 14),
        }
    }

    /// Reads this record from the first 32 bytes of `b`.
    pub fn decode(b: &[u8], order: ByteOrder) -> (r: GravityNotify)
        requires
            b@.len() >= 32,
        ensures
            r == GravityNotify::spec_decode(b@, order),
    {
        GravityNotify {
            event: get_u32(b, 4, order),
            window: get_u32(b, 8, order),
            x: get_u16(b, 12, order),
            y: get_u16(b, 14, order),
        }
    }
}

/// A window circulated, or a request to circulate it.
#[derive(Debug, Clone, Copy, PartialEq, Eq, Structural)]
pub struct CircNotify {
    pub event: u32,
    pub window: u32,
    pub place: u8,
}

impl CircNotify {
    /// This record as the first 32 bytes of `b` hold it.
    pub open spec fn spec_decode(b: Seq<u8>, order: ByteOrder) -> CircNotify {
        CircNotify {
            event: u32_at(order, b, 4),
            window: u32_at(order, b, 8),
            place: b[16],
        }
    }

    /// Reads this record from the first 32 bytes of `b`.
    pub fn decode(b: &[u8], order: ByteOrder) -> (r: CircNotify)
        requires
            b@.len() >= 32,
        ensures
            r == CircNotify::spec_decode(b@, order),
    {
        CircNotify {
            event: get_u32(b, 4, order),
            window: get_u32(b, 8, order),
            place: b[16],
        }
    }
}

/// A property changed or deleted.
#[derive(Debug, Clone, Copy, PartialEq, Eq, Structural)]
pub struct PropertyNotify {
    pub window: u32,
    pub atom: u32,
    pub time: u32,
    pub state: u8,
}

impl PropertyNotify {
    /// This record as the first 32 bytes of `b` hold it.
    pub open spec fn spec_decode(b: Seq<u8>, order: ByteOrder) -> PropertyNotify {
        PropertyNotify {
            window: u32_at(order, b, 4),
            atom: u32_at(order, b, 8),
            time: u32_at(order, b, 12),
            state: b[16],
        }
    }

    /// Reads this record from the first 32 bytes of `b`.
    pub fn decode(b: &[u8], order: ByteOrder) -> (r: PropertyNotify)
        requires
            b@.len() >= 32,
        ensures
            r == PropertyNotify::spec_decode(b@, order),
    {
        PropertyNotify {
            window: get_u32(b, 4, order),
            atom: get_u32(b, 8, order),
            time: get_u32(b, 12, order),
            state: b[16],
        }
    }
}

/// A selection taken over by another client.
#[derive(Debug, Clone, Copy, PartialEq, Eq, Structural)]
pub struct SelectionClear {
    pub time: u32,
    pub owner: u32,
    pub selection: u32,
}

impl SelectionClear {
    /// This record as the first 32 bytes of `b` hold it.
    pub open spec fn spec_decode(b: Seq<u8>, order: ByteOrder) -> SelectionClear {
        SelectionClear {
            time: u32_at(order, b, 4),
            owner: u32_at(order, b, 8),
            selection: u32_at(order, b, 12),
        }
    }

    /// Reads this record from the first 32 bytes of `b`.
    pub fn decode(b: &[u8], order: ByteOrder) -> (r: SelectionClear)
        requires
            b@.len() >= 32,
        ensures
            r == SelectionClear::spec_decode(b@, order),
    {
        SelectionClear {
            time: get_u32(b, 4, order),
            owner: get_u32(b, 8, order),
            selection: get_u32(b, 12, order),
        }
    }
}

/// A request to convert a selection that this client owns.
#[derive(Debug, Clone, Copy, PartialEq, Eq, Structural)]
pub struct SelectionReq {
    pub time: u32,
    pub owner: u32,
    pub requestor: u32,
    pub selection: u32,
    pub target: u32,
    pub property: u32,
}

impl SelectionReq {
    /// This record as the first 32 bytes of `b` hold it.
    pub open spec fn spec_decode(b: Seq<u8>, order: ByteOrder) -> SelectionReq {
        SelectionReq {
            time: u32_at(order, b, 4),
            owner: u32_at(order, b, 8),
            requestor: u32_at(order, b, 12),
            selection: u32_at(order, b, 16),
            target: u32_at(order, b, 20),
            property: u32_at(order, b, 24),
        }
    }

    /// Reads this record from the first 32 bytes of `b`.
    pub fn decode(b: &[u8], order: ByteOrder) -> (r: SelectionReq)
        requires
            b@.len() >= 32,
        ensures
            r == SelectionReq::spec_decode(b@, order),
    {
        SelectionReq {
            time: get_u32(b, 4, order),
            owner: get_u32(b, 8, order),
            requestor: get_u32(b, 12, order),
            selection: get_u32(b, 16, order),
            target: get_u32(b, 20, order),
            property: get_u32(b, 24, order),
        }
    }
}

/// The answer to a selection conversion.
#[derive(Debug, Clone, Copy, PartialEq, Eq, Structural)]
pub struct SelectionNotify {
    pub time: u32,
    pub requestor: u32,
    pub selection: u32,
    pub target: u32,
    pub property: u32,
}

impl SelectionNotify {
    /// This record as the first 32 bytes of `b` hold it.
    pub open spec fn spec_decode(b: Seq<u8>, order: ByteOrder) -> SelectionNotify {
        SelectionNotify {
            time: u32_at(order, b, 4),
            requestor: u32_at(order, b, 8),
            selection: u32_at(order, b, 12),
            target: u32_at(order, b, 16),
            property: u32_at(order, b, 20),
        }
    }

    /// Reads this record from the first 32 bytes of `b`.
    pub fn decode(b: &[u8], order: ByteOrder) -> (r: SelectionNotify)
        requires
            b@.len() >= 32,
        ensures
            r == SelectionNotify::spec_decode(b@, order),
    {
        SelectionNotify {
            time: get_u32(b, 4, order),
            requestor: get_u32(b, 8, order),
            selection: get_u32(b, 12, order),
            target: get_u32(b, 16, order),
            property: get_u32(b, 20, order),
        }
    }
}

/// A message from another client; its 20 data bytes follow.
#[derive(Debug, Clone, Copy, PartialEq, Eq, Structural)]
pub struct ClientMessage {
    pub window: u32,
    pub type_: u32,
}

impl ClientMessage {
    /// This record as the first 32 bytes of `b` hold it.
    pub open spec fn spec_decode(b: Seq<u8>, order: ByteOrder) -> ClientMessage {
        ClientMessage {
            window: u32_at(order, b, 4),
            type_: u32_at(order, b, 8),
        }
    }

    /// Reads this record from the first 32 bytes of `b`.
    pub fn decode(b: &[u8], order: ByteOrder) -> (r: ClientMessage)
        requires
            b@.len() >= 32,
        ensures
            r == ClientMessage::spec_decode(b@, order),
    {
        ClientMessage {
            window: get_u32(b, 4, order),
            type_: get_u32(b, 8, order),
        }
    }
}

/// A keyboard or pointer mapping changed.
#[derive(Debug, Clone, Copy, PartialEq, Eq, Structural)]
pub struct MappingNotify {
    pub request: u8,
    pub keycode: u8,
    pub count: u8,
}

impl MappingNotify {
    /// This record as the first 32 bytes of `b` hold it.
    pub open spec fn spec_decode(b: Seq<u8>, order: ByteOrder) -> MappingNotify {
        MappingNotify {
            request: b[4],
            keycode: b[5],
            count: b[6],
        }
    }

    /// Reads this record from the first 32 bytes of `b`.
    pub fn decode(b: &[u8], order: ByteOrder) -> (r: MappingNotify)
        requires
            b@.len() >= 32,
        ensures
            r == MappingNotify::spec_decode(b@, order),
    {
        MappingNotify {
            request: b[4],
            keycode: b[5],
            count: b[6],
        }
    }
}

/// The reply to InternAtom.
#[derive(Debug, Clone, Copy, PartialEq, Eq, Structural)]
pub struct InternAtomResponse {
    pub length: u32,
    pub atom: u32,
}

impl InternAtomResponse {
    /// This record as the first 32 bytes of `b` hold it.
    pub open spec fn spec_decode(b: Seq<u8>, order: ByteOrder) -> InternAtomResponse {
        InternAtomResponse {
            length: u32_at(order, b, 4),
            atom: u32_at(order, b, 8),
        }
    }

    /// Reads this record from the first 32 bytes of `b`.
    pub fn decode(b: &[u8], order: ByteOrder) -> (r: InternAtomResponse)
        requires
            b@.len() >= 32,
        ensures
            r == InternAtomResponse::spec_decode(b@, order),
    {
        InternAtomResponse {
            length: get_u32(b, 4, order),
            atom: get_u32(b, 8, order),
        }
    }
}

/// The reply to GetWindowAttributes.
#[derive(Debug, Clone, Copy, PartialEq, Eq, Structural)]
pub struct GetWindowAttributesResponse {
    pub length: u32,
    pub visual: u32,
    pub class: u16,
    pub bit_gravity: u8,
    pub win_gravity: u8,
    pub backing_planes: u32,
    pub backing_pixel: u32,
    pub save_under: u8,
    pub map_is_installed: u8,
    pub map_state: u8,
    pub override_redirect: u8,
    pub colormap: u32,
    pub all_event_mask: u32,
    pub your_event_mask: u32,
    pub do_not_propogate_mask: u16,
}

impl GetWindowAttributesResponse {
    /// This record as the first 44 bytes of `b` hold it.
    pub open spec fn spec_decode(b: Seq<u8>, order: ByteOrder) -> GetWindowAttributesResponse {
        GetWindowAttributesResponse {
            length: u32_at(order, b, 4),
            visual: u32_at(order, b, 8),
            class: u16_at(order, b, 12),
            bit_gravity: b[14],
            win_gravity: b[15],
            backing_planes: u32_at(order, b, 16),
            backing_pixel: u32_at(order, b, 20),
            save_under: b[24],
            map_is_installed: b[25],
            map_state: b[26],
            override_redirect: b[27],
            colormap: u32_at(order, b, 28),
            all_event_mask: u32_at(order, b, 32),
            your_event_mask: u32_at(order, b, 36),
            do_not_propogate_mask: u16_at(order, b, 40),
        }
    }

    /// Reads this record from the first 44 bytes of `b`.
    pub fn decode(b: &[u8], order: ByteOrder) -> (r: GetWindowAttributesResponse)
        requires
            b@.len() >= 44,
        ensures
            r == GetWindowAttributesResponse::spec_decode(b@, order),
    {
        GetWindowAttributesResponse {
            length: get_u32(b, 4, order),
            visual: get_u32(b, 8, order),
            class: get_u16(b, 12, order),
            bit_gravity: b[14],
            win_gravity: b[15],
            backing_planes: get_u32(b, 16, order),
            backing_pixel: get_u32(b, 20, order),
            save_under: b[24],
            map_is_installed: b[25],
            map_state: b[26],
            override_redirect: b[27],
            colormap: get_u32(b, 28, order),
            all_event_mask: get_u32(b, 32, order),
            your_event_mask: get_u32(b, 36, order),
            do_not_propogate_mask: get_u16(b, 40, order),
        }
    }
}

/// The reply to GetGeometry.
#[derive(Debug, Clone, Copy, PartialEq, Eq, Structural)]
pub struct GetGeometryResponse {
    pub depth: u8,
    pub length: u32,
    pub root: u32,
    pub x: u16,
    pub y: u16,
    pub width: u16,
    pub height: u16,
    pub border_width: u16,
}

impl GetGeometryResponse {
    /// This record as the first 32 bytes of `b` hold it.
    pub open spec fn spec_decode(b: Seq<u8>, order: ByteOrder) -> GetGeometryResponse {
        GetGeometryResponse {
            depth: b[1],
            length: u32_at(order, b, 4),
            root: u32_at(order, b, 8),
            x: u16_at(order, b, 12),
            y: u16_at(order, b, 14),
            width: u16_at(order, b, 16),
            height: u16_at(order, b, 18),
            border_width: u16_at(order, b, 20),
        }
    }

    /// Reads this record from the first 32 bytes of `b`.
    pub fn decode(b: &[u8], order: ByteOrder) -> (r: GetGeometryResponse)
        requires
            b@.len() >= 32,
        ensures
            r == GetGeometryResponse::spec_decode(b@, order),
    {
        GetGeometryResponse {
            depth: b[1],
            length: get_u32(b, 4, order),
            root: get_u32(b, 8, order),
            x: get_u16(b, 12, order),
            y: get_u16(b, 14, order),
            width: get_u16(b, 16, order),
            height: get_u16(b, 18, order),
            border_width: get_u16(b, 20, order),
        }
    }
}

/// The reply to QueryPointer.
#[derive(Debug, Clone, Copy, PartialEq, Eq, Structural)]
pub struct QueryPointerResponse {
    pub same_screen: u8,
    pub length: u32,
    pub root: u32,
    pub child: u32,
    pub root_x: u16,
    pub root_y: u16,
    pub win_x: u16,
    pub win_y: u16,
    pub mask: u16,
}

impl QueryPointerResponse {
    /// This record as the first 32 bytes of `b` hold it.
    pub open spec fn spec_decode(b: Seq<u8>, order: ByteOrder) -> QueryPointerResponse {
        QueryPointerResponse {
            same_screen: b[1],
            length: u32_at(order, b, 4),
            root: u32_at(order, b, 8),
            child: u32_at(order, b, 12),
            root_x: u16_at(order, b, 16),
            root_y: u16_at(order, b, 18),
            win_x: u16_at(order, b, 20),
            win_y: u16_at(order, b, 22),
            mask: u16_at(order, b, 24),
        }
    }

    /// Reads this record from the first 32 bytes of `b`.
    pub fn decode(b: &[u8], order: ByteOrder) -> (r: QueryPointerResponse)
        requires
            b@.len() >= 32,
        ensures
            r == QueryPointerResponse::spec_decode(b@, order),
    {
        QueryPointerResponse {
            same_screen: b[1],
            length: get_u32(b, 4, order),
            root: get_u32(b, 8, order),
            child: get_u32(b, 12, order),
            root_x: get_u16(b, 16, order),
            root_y: get_u16(b, 18, order),
            win_x: get_u16(b, 20, order),
            win_y: get_u16(b, 22, order),
            mask: get_u16(b, 24, order),
        }
    }
}

/// The reply to GetInputFocus.
#[derive(Debug, Clone, Copy, PartialEq, Eq, Structural)]
pub struct GetInputFocusResponse {
    pub revert_to: u8,
    pub length: u32,
    pub window: u32,
}

impl GetInputFocusResponse {
    /// This record as the first 32 bytes of `b` hold it.
    pub open spec fn spec_decode(b: Seq<u8>, order: ByteOrder) -> GetInputFocusResponse {
        GetInputFocusResponse {
            revert_to: b[1],
            length: u32_at(order, b, 4),
            window: u32_at(order, b, 8),
        }
    }

    /// Reads this record from the first 32 bytes of `b`.
    pub fn decode(b: &[u8], order: ByteOrder) -> (r: GetInputFocusResponse)
        requires
            b@.len() >= 32,
        ensures
            r == GetInputFocusResponse::spec_decode(b@, order),
    {
        GetInputFocusResponse {
            revert_to: b[1],
            length: get_u32(b, 4, order),
            window: get_u32(b, 8, order),
        }
    }
}

/// The reply to GrabPointer.
#[derive(Debug, Clone, Copy, PartialEq, Eq, Structural)]
pub struct GrabPointerResponse {
    pub status: u8,
    pub length: u32,
}

impl GrabPointerResponse {
    /// This record as the first 32 bytes of `b` hold it.
    pub open spec fn spec_decode(b: Seq<u8>, order: ByteOrder) -> GrabPointerResponse {
        GrabPointerResponse {
            status: b[1],
            length: u32_at(order, b, 4),
        }
    }

    /// Reads this record from the first 32 bytes of `b`.
    pub fn decode(b: &[u8], order: ByteOrder) -> (r: GrabPointerResponse)
        requires
            b@.len() >= 32,
        ensures
            r == GrabPointerResponse::spec_decode(b@, order),
    {
        GrabPointerResponse {
            status: b[1],
            length: get_u32(b, 4, order),
        }
    }
}

/// The reply to QueryExtension.
#[derive(Debug, Clone, Copy, PartialEq, Eq, Structural)]
pub struct QueryExtensionResponse {
    pub length: u32,
    pub present: u8,
    pub major_opcode: u8,
    pub first_event: u8,
    pub first_error: u8,
}

impl QueryExtensionResponse {
    /// This record as the first 32 bytes of `b` hold it.
    pub open spec fn spec_decode(b: Seq<u8>, order: ByteOrder) -> QueryExtensionResponse {
        QueryExtensionResponse {
            length: u32_at(order, b, 4),
            present: b[8],
            major_opcode: b[9],
            first_event: b[10],
            first_error: b[11],
        }
    }

    /// Reads this record from the first 32 bytes of `b`.
    pub fn decode(b: &[u8], order: ByteOrder) -> (r: QueryExtensionResponse)
        requires
            b@.len() >= 32,
        ensures
            r == QueryExtensionResponse::spec_decode(b@, order),
    {
        QueryExtensionResponse {
            length: get_u32(b, 4, order),
            present: b[8],
            major_opcode: b[9],
            first_event: b[10],
            first_error: b[11],
        }
    }
}

/// The reply to GetSelectionOwner.
#[derive(Debug, Clone, Copy, PartialEq, Eq, Structural)]
pub struct GetSelectionOwnerResponse {
    pub length: u32,
    pub owner: u32,
}

impl GetSelectionOwnerResponse {
    /// This record as the first 32 bytes of `b` hold it.
    pub open spec fn spec_decode(b: Seq<u8>, order: ByteOrder) -> GetSelectionOwnerResponse {
        GetSelectionOwnerResponse {
            length: u32_at(order, b, 4),
            owner: u32_at(order, b, 8),
        }
    }

    /// Reads this record from the first 32 bytes of `b`.
    pub fn decode(b: &[u8], order: ByteOrder) -> (r: GetSelectionOwnerResponse)
        requires
            b@.len() >= 32,
        ensures
            r == GetSelectionOwnerResponse::spec_decode(b@, order),
    {
        GetSelectionOwnerResponse {
            length: get_u32(b, 4, order),
            owner: get_u32(b, 8, order),
        }
    }
}

/// The fixed part of the reply to GetProperty; the value follows it.
#[derive(Debug, Clone, Copy, PartialEq, Eq, Structural)]
pub struct GetPropertyResponse {
    pub format: u8,
    pub length: u32,
    pub type_: u32,
    pub bytes_after: u32,
    pub value_len: u32,
}

impl GetPropertyResponse {
    /// This record as the first 32 bytes of `b` hold it.
    pub open spec fn spec_decode(b: Seq<u8>, order: ByteOrder) -> GetPropertyResponse {
        GetPropertyResponse {
            format: b[1],
            length: u32_at(order, b, 4),
            type_: u32_at(order, b, 8),
            bytes_after: u32_at(order, b, 12),
            value_len: u32_at(order, b, 16),
        }
    }

    /// Reads this record from the first 32 bytes of `b`.
    pub fn decode(b: &[u8], order: ByteOrder) -> (r: GetPropertyResponse)
        requires
            b@.len() >= 32,
        ensures
            r == GetPropertyResponse::spec_decode(b@, order),
    {
        GetPropertyResponse {
            format: b[1],
            length: get_u32(b, 4, order),
            type_: get_u32(b, 8, order),
            bytes_after: get_u32(b, 12, order),
            value_len: get_u32(b, 16, order),
        }
    }
}

/// The fixed part of the reply to GetKeyboardMapping; the keysyms follow it.
#[derive(Debug, Clone, Copy, PartialEq, Eq, Structural)]
pub struct KeyboardMappingResponse {
    pub keysyms_per_keycode: u8,
    pub length: u32,
}

impl KeyboardMappingResponse {
    /// This record as the first 32 bytes of `b` hold it.
    pub open spec fn spec_decode(b: Seq<u8>, order: ByteOrder) -> KeyboardMappingResponse {
        KeyboardMappingResponse {
            keysyms_per_keycode: b[1],
            length: u32_at(order, b, 4),
        }
    }

    /// Reads this record from the first 32 bytes of `b`.
    pub fn decode(b: &[u8], order: ByteOrder) -> (r: KeyboardMappingResponse)
        requires
            b@.len() >= 32,
        ensures
            r == KeyboardMappingResponse::spec_decode(b@, order),
    {
        KeyboardMappingResponse {
            keysyms_per_keycode: b[1],
            length: get_u32(b, 4, order),
        }
    }
}

/// The reply to the Xinerama IsActive request.
#[derive(Debug, Clone, Copy, PartialEq, Eq, Structural)]
pub struct XineramaIsActiveResponse {
    pub length: u32,
    pub state: u32,
}

impl XineramaIsActiveResponse {
    /// This record as the first 32 bytes of `b` hold it.
    pub open spec fn spec_decode(b: Seq<u8>, order: ByteOrder) -> XineramaIsActiveResponse {
        XineramaIsActiveResponse {
            length: u32_at(order, b, 4),
            state: u32_at(order, b, 8),
        }
    }

    /// Reads this record from the first 32 bytes of `b`.
    pub fn decode(b: &[u8], order: ByteOrder) -> (r: XineramaIsActiveResponse)
        requires
            b@.len() >= 32,
        ensures
            r == XineramaIsActiveResponse::spec_decode(b@, order),
    {
        XineramaIsActiveResponse {
            length: get_u32(b, 4, order),
            state: get_u32(b, 8, order),
        }
    }
}

/// The fixed part of the reply to the Xinerama QueryScreens request.
#[derive(Debug, Clone, Copy, PartialEq, Eq, Structural)]
pub struct XineramaQueryScreensResponse {
    pub length: u32,
    pub number: u32,
}

impl XineramaQueryScreensResponse {
    /// This record as the first 32 bytes of `b` hold it.
    pub open spec fn spec_decode(b: Seq<u8>, order: ByteOrder) -> XineramaQueryScreensResponse {
        XineramaQueryScreensResponse {
            length: u32_at(order, b, 4),
            number: u32_at(order, b, 8),
        }
    }

    /// Reads this record from the first 32 bytes of `b`.
    pub fn decode(b: &[u8], order: ByteOrder) -> (r: XineramaQueryScreensResponse)
        requires
            b@.len() >= 32,
        ensures
            r == XineramaQueryScreensResponse::spec_decode(b@, order),
    {
        XineramaQueryScreensResponse {
            length: get_u32(b, 4, order),
            number: get_u32(b, 8, order),
        }
    }
}

/// One screen of a Xinerama layout.
#[derive(Debug, Clone, Copy, PartialEq, Eq, Structural)]
pub struct XineramaScreenInfo {
    pub x: i16,
    pub y: i16,
    pub width: u16,
    pub height: u16,
}

impl XineramaScreenInfo {
    /// This record as the first 8 bytes of `b` hold it.
    pub open spec fn spec_decode(b: Seq<u8>, order: ByteOrder) -> XineramaScreenInfo {
        XineramaScreenInfo {
            x: u16_at(order, b, 0) as i16,
            y: u16_at(order, b, 2) as i16,
            width: u16_at(order, b, 4),
            height: u16_at(order, b, 6),
        }
    }

    /// Reads this record from the first 8 bytes of `b`.
    pub fn decode(b: &[u8], order: ByteOrder) -> (r: XineramaScreenInfo)
        requires
            b@.len() >= 8,
        ensures
            r == XineramaScreenInfo::spec_decode(b@, order),
    {
        XineramaScreenInfo {
            x: #[verifier::truncate] (get_u16(b, 0, order) as i16),
            y: #[verifier::truncate] (get_u16(b, 2, order) as i16),
            width: get_u16(b, 4, order),
            height: get_u16(b, 6, order),
        }
    }
}


impl SetupRequest {
    pub fn new(endian: u8, major_version: u16, minor_version: u16, name_len: u16, data_len: u16) -> (r:
        SetupRequest)
        ensures
            r == (SetupRequest { endian, major_version, minor_version, name_len, data_len }),
    {
        SetupRequest { endian, major_version, minor_version, name_len, data_len }
    }
}

} // verus!
