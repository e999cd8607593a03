//! The atoms that the clipboard interns at startup.

use vstd::prelude::*;

use crate::clipboard::error::Error;
use crate::display::Atom;

verus! {

/// The selections.
#[derive(Debug, Clone, Copy, PartialEq, Eq, Structural)]
pub struct SelectionAtoms {
    pub clipboard: Atom,
    pub primary: Atom,
    pub secondary: Atom,
    pub clipboard_manager: Atom,
}

/// The targets of the selection protocol itself.
#[derive(Debug, Clone, Copy, PartialEq, Eq, Structural)]
pub struct ProtocolAtoms {
    pub targets: Atom,
    pub multiple: Atom,
    pub timestamp: Atom,
    pub target_sizes: Atom,
    pub save_targets: Atom,
    pub delete: Atom,
    pub insert_property: Atom,
    pub insert_selection: Atom,
    pub incr: Atom,
    pub atom: Atom,
    pub none: Atom,
    pub integer: Atom,
}

/// The data formats.
#[derive(Debug, Clone, Copy, PartialEq, Eq, Structural)]
pub struct FormatAtoms {
    pub utf8_string: Atom,
    pub utf8_mime: Atom,
    pub utf8_mime_alt: Atom,
    pub string: Atom,
    pub text: Atom,
    pub plain: Atom,
    pub html: Atom,
    pub rtf: Atom,
    pub png: Atom,
    pub jpeg: Atom,
    pub tiff: Atom,
    pub bmp: Atom,
    pub pdf: Atom,
    pub uri_list: Atom,
}

/// Every atom that the clipboard uses.
#[derive(Debug, Clone, Copy, PartialEq, Eq, Structural)]
pub struct Atoms {
    pub selections: SelectionAtoms,
    pub protocol: ProtocolAtoms,
    pub formats: FormatAtoms,
}

/// How many atoms `Atoms::names` lists.
pub const ATOM_COUNT: usize = 30;

impl Atoms {
    /// The names to intern, in the order that `Atoms::new` reads their atoms.
    pub fn names() -> (r: Vec<&'static str>)
        ensures
            r@.len() == ATOM_COUNT,
            r@ == seq![
            "CLIPBOARD",
            "PRIMARY",
            "SECONDARY",
            "CLIPBOARD_MANAGER",
            "TARGETS",
            "MULTIPLE",
            "TIMESTAMP",
            "TARGET_SIZES",
            "SAVE_TARGETS",
            "DELETE",
            "INSERT_PROPERTY",
            "INSERT_SELECTION",
            "INCR",
            "ATOM",
            "NONE",
            "INTEGER",
            "UTF8_STRING",
            "text/plain;charset=utf-8",
            "text/plain;charset=utf8",
            "STRING",
            "TEXT",
            "text/plain",
            "text/html",
            "text/rtf",
            "image/png",
            "image/jpeg",
            "image/tiff",
            "image/bmp",
            "application/pdf",
            "text/uri-list",
            ],
    {
        vec![
            "CLIPBOARD",
            "PRIMARY",
            "SECONDARY",
            "CLIPBOARD_MANAGER",
            "TARGETS",
            "MULTIPLE",
            "TIMESTAMP",
            "TARGET_SIZES",
            "SAVE_TARGETS",
            "DELETE",
            "INSERT_PROPERTY",
            "INSERT_SELECTION",
            "INCR",
            "ATOM",
            "NONE",
            "INTEGER",
            "UTF8_STRING",
            "text/plain;charset=utf-8",
            "text/plain;charset=utf8",
            "STRING",
            "TEXT",
            "text/plain",
            "text/html",
            "text/rtf",
            "image/png",
            "image/jpeg",
            "image/tiff",
            "image/bmp",
            "application/pdf",
            "text/uri-list",
        ]
    }

    /// The atoms interned for `Atoms::names`, in that order.
    pub fn new(interned: &[Atom]) -> (r: Result<Atoms, Error>)
        ensures
            interned@.len() != ATOM_COUNT ==> r == Err::<Atoms, Error>(Error::InvalidProperty),
            interned@.len() == ATOM_COUNT ==> r is Ok && {
                let a = r->Ok_0;
                let s = interned@;
                &&& a.selections == (SelectionAtoms {
                    clipboard: s[0],
                    primary: s[1],
                    secondary: s[2],
                    clipboard_manager: s[3],
                })
                &&& a.protocol == (ProtocolAtoms {
                    targets: s[4],
                    multiple: s[5],
                    timestamp: s[6],
                    target_sizes: s[7],
                    save_targets: s[8],
                    delete: s[9],
                    insert_property: s[10],
                    insert_selection: s[11],
                    incr: s[12],
                    atom: s[13],
                    none: s[14],
                    integer: s[15],
                })
                &&& a.formats == (FormatAtoms {
                    utf8_string: s[16],
                    utf8_mime: s[17],
                    utf8_mime_alt: s[18],
                    string: s[19],
                    text: s[20],
                    plain: s[21],
                    html: s[22],
                    rtf: s[23],
                    png: s[24],
                    jpeg: s[25],
                    tiff: s[26],
                    bmp: s[27],
                    pdf: s[28],
                    uri_list: s[29],
                })
            },
    {
        if interned.len() != ATOM_COUNT {
            return Err(Error::InvalidProperty);
        }
        let s = interned;
        Ok(
            Atoms {
                selections: SelectionAtoms {
                    clipboard: s[0],
                    primary: s[1],
                    secondary: s[2],
                    clipboard_manager: s[3],
                },
                protocol: ProtocolAtoms {
                    targets: s[4],
                    multiple: s[5],
                    timestamp: s[6],
                    target_sizes: s[7],
                    save_targets: s[8],
                    delete: s[9],
                    insert_property: s[10],
                    insert_selection: s[11],
                    incr: s[12],
                    atom: s[13],
                    none: s[14],
                    integer: s[15],
                },
                formats: FormatAtoms {
                    utf8_string: s[16],
                    utf8_mime: s[17],
                    utf8_mime_alt: s[18],
                    string: s[19],
                    text: s[20],
                    plain: s[21],
                    html: s[22],
                    rtf: s[23],
                    png: s[24],
                    jpeg: s[25],
                    tiff: s[26],
                    bmp: s[27],
                    pdf: s[28],
                    uri_list: s[29],
                },
            },
        )
    }

    pub open spec fn side_effect(&self, target: Atom) -> bool {
        target == self.protocol.save_targets || target == self.protocol.delete || target
            == self.protocol.insert_property || target == self.protocol.insert_selection || target
            == self.protocol.multiple || target == self.protocol.incr
    }

    /// Whether converting to `target` asks the owner to do something rather than to hand out
    /// data.
    pub fn is_side_effect_target(&self, target: Atom) -> (r: bool)
        ensures
            r == self.side_effect(target),
    {
        target == self.protocol.save_targets || target == self.protocol.delete || target
            == self.protocol.insert_property || target == self.protocol.insert_selection || target
            == self.protocol.multiple || target == self.protocol.incr
    }
}

} // verus!
