//! The ICCCM clipboard: selection ownership, transfers of regular and INCR size, and the
//! handover to a clipboard manager.

pub mod atoms;
pub mod error;
pub mod event;
pub mod model;

use vstd::prelude::*;
use vstd::slice::slice_to_vec;
use vstd::string::StringSliceAdditionalSpecFns;
use vstd::utf8::{decode_utf8, valid_utf8};

use crate::clipboard::atoms::Atoms;
use crate::clipboard::error::Error;
use crate::clipboard::model::ClipboardData;
use crate::display::request::{get_u32, string_from_utf8, u32_at, ByteOrder};
use crate::display::Atom;

verus! {

/// HTML on the clipboard, with an optional plain-text alternative.
#[derive(Debug, Clone, PartialEq, Eq)]
pub struct Html {
    pub html: String,
    pub alt: Option<String>,
}

impl Html {
    pub fn new(html: String, alt: Option<String>) -> (r: Html)
        ensures
            r.html@ == html@,
            r.alt == alt,
    {
        Html { html, alt }
    }

    pub fn is_empty(&self) -> (r: bool)
        ensures
            r == (self.html@.len() == 0),
    {
        self.html.as_str().is_empty()
    }

    pub fn html(&self) -> (r: &str)
        ensures
            r@ == self.html@,
    {
        self.html.as_str()
    }

    pub fn alt(&self) -> (r: Option<&str>)
        ensures
            match self.alt {
                Some(a) => r is Some && r->0@ == a@,
                None => r is None,
            },
    {
        match &self.alt {
            Some(a) => Some(a.as_str()),
            None => None,
        }
    }
}

/// The image formats that the clipboard reads and writes.
#[derive(Debug, Clone, Copy, PartialEq, Eq, Structural)]
pub enum ImageFormat {
    Png,
    Jpeg,
    Tiff,
    Bmp,
}

/// The atom of an image format.
pub open spec fn image_atom(atoms: Atoms, format: ImageFormat) -> Atom {
    match format {
        ImageFormat::Png => atoms.formats.png,
        ImageFormat::Jpeg => atoms.formats.jpeg,
        ImageFormat::Tiff => atoms.formats.tiff,
        ImageFormat::Bmp => atoms.formats.bmp,
    }
}

impl ImageFormat {
    /// The atom of this format.
    pub fn atom(&self, atoms: &Atoms) -> (r: Atom)
        ensures
            r == image_atom(*atoms, *self),
    {
        match self {
            ImageFormat::Png => atoms.formats.png,
            ImageFormat::Jpeg => atoms.formats.jpeg,
            ImageFormat::Tiff => atoms.formats.tiff,
            ImageFormat::Bmp => atoms.formats.bmp,
        }
    }

    /// The format whose atom is `atom`, trying PNG, JPEG, TIFF and BMP in that order.
    pub fn from_atom(atoms: &Atoms, atom: Atom) -> (r: Option<ImageFormat>)
        ensures
            match r {
                Some(f) => image_atom(*atoms, f) == atom,
                None => atom != atoms.formats.png && atom != atoms.formats.jpeg && atom
                    != atoms.formats.tiff && atom != atoms.formats.bmp,
            },
    {
        if atom == atoms.formats.png {
            Some(ImageFormat::Png)
        } else if atom == atoms.formats.jpeg {
            Some(ImageFormat::Jpeg)
        } else if atom == atoms.formats.tiff {
            Some(ImageFormat::Tiff)
        } else if atom == atoms.formats.bmp {
            Some(ImageFormat::Bmp)
        } else {
            None
        }
    }
}

/// An image on the clipboard: its bytes and format.
#[derive(Debug, Clone, PartialEq, Eq)]
pub struct Image {
    pub bytes: Vec<u8>,
    pub format: ImageFormat,
}

impl Image {
    pub fn len(&self) -> (r: usize)
        ensures
            r == self.bytes@.len(),
    {
        self.bytes.len()
    }

    pub fn is_empty(&self) -> (r: bool)
        ensures
            r == (self.bytes@.len() == 0),
    {
        self.bytes.len() == 0
    }

    pub fn format(&self) -> (r: ImageFormat)
        ensures
            r == self.format,
    {
        self.format
    }

    pub fn bytes(&self) -> (r: &[u8])
        ensures
            r@ == self.bytes@,
    {
        self.bytes.as_slice()
    }

    pub fn into_bytes(self) -> (r: Vec<u8>)
        ensures
            r@ == self.bytes@,
    {
        self.bytes
    }
}

/// A target of a selection, with its name.
#[derive(Debug, Clone, PartialEq, Eq)]
pub struct Target {
    pub atom: Atom,
    pub name: String,
}

/// The atoms that a TARGETS value lists: one per four bytes; trailing bytes are ignored.
pub fn targets_from_bytes(bytes: &[u8], order: ByteOrder) -> (r: Vec<Atom>)
    ensures
        r@.len() == bytes@.len() / 4,
        forall|i: int| 0 <= i < r@.len() ==> #[trigger] r@[i].id == u32_at(order, bytes@, 4 * i),
{
    let mut atoms: Vec<Atom> = Vec::new();
    let len = bytes.len();
    let n = len / 4;
    let mut i: usize = 0;
    while i < n
        invariant
            n == bytes@.len() / 4,
            len == bytes@.len(),
            i <= n,
            atoms@.len() == i,
            forall|k: int| 0 <= k < i ==> #[trigger] atoms@[k].id == u32_at(order, bytes@, 4 * k),
        decreases n - i,
    {
        atoms.push(Atom::new(get_u32(bytes, 4 * i, order)));
        i = i + 1;
    }
    atoms
}

/// The values that text is written as: UTF8_STRING, `text/plain;charset=utf-8` and
/// `text/plain;charset=utf8`, each holding the UTF-8 bytes of the text.
pub fn text_data(atoms: &Atoms, text: &str) -> (r: Vec<ClipboardData>)
    ensures
        r@.len() == 3,
        r@[0].format == atoms.formats.utf8_string,
        r@[1].format == atoms.formats.utf8_mime,
        r@[2].format == atoms.formats.utf8_mime_alt,
        forall|i: int| 0 <= i < 3 ==> #[trigger] r@[i].bytes@ == text.spec_bytes(),
        forall|i: int| 0 <= i < 3 ==> #[trigger] r@[i].timestamp == 0,
{
    let bytes = text.as_bytes();
    let mut data: Vec<ClipboardData> = Vec::new();
    data.push(ClipboardData::from_bytes(slice_to_vec(bytes), atoms.formats.utf8_string));
    data.push(ClipboardData::from_bytes(slice_to_vec(bytes), atoms.formats.utf8_mime));
    data.push(ClipboardData::from_bytes(slice_to_vec(bytes), atoms.formats.utf8_mime_alt));
    data
}

/// The values of HTML: `text/html`, then the alternative as UTF8_STRING if there is one.
pub fn html_data(atoms: &Atoms, html: &str, alt: Option<&str>) -> (r: Vec<ClipboardData>)
    ensures
        r@.len() == if alt is Some {
            2int
        } else {
            1int
        },
        r@[0].format == atoms.formats.html,
        r@[0].bytes@ == html.spec_bytes(),
        alt is Some ==> r@[1].format == atoms.formats.utf8_string && r@[1].bytes@
            == alt->0.spec_bytes(),
{
    let mut data: Vec<ClipboardData> = Vec::new();
    data.push(ClipboardData::from_bytes(slice_to_vec(html.as_bytes()), atoms.formats.html));
    match alt {
        Some(alt) => {
            data.push(
                ClipboardData::from_bytes(slice_to_vec(alt.as_bytes()), atoms.formats.utf8_string),
            );
        },
        None => {},
    }
    data
}

/// The text that a value holds: nothing when it is empty, else its UTF-8 decoding.
pub fn text_from_data(data: ClipboardData) -> (r: Result<Option<String>, Error>)
    ensures
        data.bytes@.len() == 0 ==> r == Ok::<Option<String>, Error>(None),
        data.bytes@.len() > 0 && !valid_utf8(data.bytes@) ==> r == Err::<Option<String>, Error>(
            Error::Utf8,
        ),
        data.bytes@.len() > 0 && valid_utf8(data.bytes@) ==> match r {
            Ok(Some(s)) => s@ == decode_utf8(data.bytes@),
            _ => false,
        },
{
    if data.bytes.len() == 0 {
        return Ok(None);
    }
    match string_from_utf8(data.bytes) {
        Some(text) => Ok(Some(text)),
        None => Err(Error::Utf8),
    }
}

/// The image that a value holds, when its format is an image format and it is not empty.
pub fn image_from_data(atoms: &Atoms, data: ClipboardData) -> (r: Option<Image>)
    ensures
        match r {
            Some(image) => data.bytes@.len() > 0 && image.bytes@ == data.bytes@ && image_atom(
                *atoms,
                image.format,
            ) == data.format,
            None => data.bytes@.len() == 0 || (data.format != atoms.formats.png && data.format
                != atoms.formats.jpeg && data.format != atoms.formats.tiff && data.format
                != atoms.formats.bmp),
        },
{
    if data.bytes.len() == 0 {
        return None;
    }
    match ImageFormat::from_atom(atoms, data.format) {
        Some(format) => Some(Image { bytes: data.bytes, format }),
        None => None,
    }
}

} // verus!
