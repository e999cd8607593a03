//! Entries of an authorization file (the `xauth` format): big-endian lengths, each field
//! prefixed by its length.

use vstd::prelude::*;
use vstd::slice::{slice_subrange, slice_to_vec};

use crate::display::error::Error;

verus! {

/// One entry: the family of the address, the address, the display number, and the name and
/// data of the authorization protocol.
#[derive(Debug, Clone, PartialEq, Eq)]
pub struct Entry {
    pub family: u16,
    pub address: Vec<u8>,
    pub number: Vec<u8>,
    pub name: Vec<u8>,
    pub data: Vec<u8>,
}

/// A big-endian 16-bit number at `at`.
pub open spec fn be16(b: Seq<u8>, at: int) -> int {
    256 * b[at] as int + b[at + 1] as int
}

/// Where the field that starts at `at` ends, if the bytes hold it.
pub open spec fn field_end(b: Seq<u8>, at: int) -> Option<int> {
    if at + 2 <= b.len() && at + 2 + be16(b, at) <= b.len() {
        Some(at + 2 + be16(b, at))
    } else {
        None
    }
}

/// The entry that starts at `p`: family, address, number, name, data and where it ends, if
/// the bytes hold all of it.
pub open spec fn entry_at(b: Seq<u8>, p: int) -> Option<(int, Seq<u8>, Seq<u8>, Seq<u8>, Seq<u8>, int)> {
    if p + 2 > b.len() {
        None
    } else {
        match field_end(b, p + 2) {
            None => None,
            Some(a) => match field_end(b, a) {
                None => None,
                Some(n) => match field_end(b, n) {
                    None => None,
                    Some(m) => match field_end(b, m) {
                        None => None,
                        Some(d) => Some(
                            (
                                be16(b, p),
                                b.subrange(p + 4, a),
                                b.subrange(a + 2, n),
                                b.subrange(n + 2, m),
                                b.subrange(m + 2, d),
                                d,
                            ),
                        ),
                    },
                },
            },
        }
    }
}

/// Whether `e` is the entry that `v` describes.
pub open spec fn entry_is(e: Entry, v: (int, Seq<u8>, Seq<u8>, Seq<u8>, Seq<u8>, int)) -> bool {
    e.family as int == v.0 && e.address@ == v.1 && e.number@ == v.2 && e.name@ == v.3 && e.data@
        == v.4
}

/// An authorization file being read.
pub struct XAuth {
    pub file: Vec<u8>,
    pub pos: usize,
}

impl XAuth {
    /// Reads from the start of the file's contents.
    pub fn new(file: Vec<u8>) -> (r: XAuth)
        ensures
            r.file@ == file@,
            r.pos == 0,
    {
        XAuth { file, pos: 0 }
    }

    /// Reads one length-prefixed field.
    fn value(&mut self) -> (r: Result<Vec<u8>, Error>)
        requires
            old(self).pos <= old(self).file@.len(),
        ensures
            final(self).file@ == old(self).file@,
            final(self).pos <= final(self).file@.len(),
            match field_end(old(self).file@, old(self).pos as int) {
                Some(end) => r is Ok && r->Ok_0@ == old(self).file@.subrange(
                    old(self).pos + 2,
                    end,
                ) && final(self).pos == end,
                None => r == Err::<Vec<u8>, Error>(Error::Stream),
            },
    {
        let len = self.file.len();
        if len - self.pos < 2 {
            return Err(Error::Stream);
        }
        let size = (self.file[self.pos] as usize) * 256 + self.file[self.pos + 1] as usize;
        if len - self.pos - 2 < size {
            return Err(Error::Stream);
        }
        let start = self.pos + 2;
        let value = slice_to_vec(slice_subrange(self.file.as_slice(), start, start + size));
        self.pos = start + size;
        Ok(value)
    }

    /// Reads the next entry.
    pub fn entry(&mut self) -> (r: Result<Entry, Error>)
        requires
            old(self).pos <= old(self).file@.len(),
        ensures
            final(self).file@ == old(self).file@,
            final(self).pos <= final(self).file@.len(),
            match entry_at(old(self).file@, old(self).pos as int) {
                Some(v) => r is Ok && entry_is(r->Ok_0, v) && final(self).pos == v.5,
                None => r == Err::<Entry, Error>(Error::Stream),
            },
    {
        if self.file.len() - self.pos < 2 {
            return Err(Error::Stream);
        }
        let family = (self.file[self.pos] as u16) * 256 + self.file[self.pos + 1] as u16;
        self.pos = self.pos + 2;
        let address = self.value()?;
        let number = self.value()?;
        let name = self.value()?;
        let data = self.value()?;
        Ok(Entry { family, address, number, name, data })
    }
}

/// The first entry of an authorization file's contents.
pub fn entry(file: Vec<u8>) -> (r: Result<Entry, Error>)
    ensures
        match entry_at(file@, 0) {
            Some(v) => r is Ok && entry_is(r->Ok_0, v),
            None => r == Err::<Entry, Error>(Error::Stream),
        },
{
    let mut auth = XAuth::new(file);
    auth.entry()
}

} // verus!
