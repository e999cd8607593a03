//! Xinerama: several monitors shown as one screen.

use vstd::prelude::*;

use crate::display::error::Error;
use crate::display::request::{ByteOrder, ExtensionRequest, XineramaScreenInfo};
use crate::proto::{Reply, ReplyKind, Request};

verus! {

/// The minor opcodes of the Xinerama requests.
#[non_exhaustive]
pub struct MinorOpcode;

impl MinorOpcode {
    pub const IS_ACTIVE: u8 = 4;
    pub const QUERY_SCREENS: u8 = 5;
}

/// The Xinerama requests, under the major opcode that the server assigned.
pub struct Xinerama {
    pub order: ByteOrder,
    pub major_opcode: u8,
}

impl Xinerama {
    pub fn new(order: ByteOrder, major_opcode: u8) -> (r: Xinerama)
        ensures
            r.order == order,
            r.major_opcode == major_opcode,
    {
        Xinerama { order, major_opcode }
    }

    /// Asks for the screens of the layout.
    pub fn query_screens(&self) -> (r: Request)
        ensures
            r.reply == Some(ReplyKind::XineramaQueryScreens),
            r.bytes@ == (ExtensionRequest {
                opcode: self.major_opcode,
                minor: MinorOpcode::QUERY_SCREENS,
                length: 1,
            }).spec_encode(self.order),
    {
        let request = ExtensionRequest {
            opcode: self.major_opcode,
            minor: MinorOpcode::QUERY_SCREENS,
            length: 1,
        };
        Request { bytes: request.encode(self.order), reply: Some(ReplyKind::XineramaQueryScreens) }
    }

    /// The screens from the reply to `query_screens`.
    pub fn screens_from_reply(reply: Reply) -> (r: Result<Vec<XineramaScreenInfo>, Error>)
        ensures
            match reply {
                Reply::XineramaQueryScreens { screens } => r is Ok && r->Ok_0@ == screens@,
                _ => r == Err::<Vec<XineramaScreenInfo>, Error>(Error::InvalidReply),
            },
    {
        match reply {
            Reply::XineramaQueryScreens { screens } => Ok(screens),
            _ => Err(Error::InvalidReply),
        }
    }

    /// Asks whether Xinerama is active.
    pub fn is_active(&self) -> (r: Request)
        ensures
            r.reply == Some(ReplyKind::XineramaIsActive),
            r.bytes@ == (ExtensionRequest {
                opcode: self.major_opcode,
                minor: MinorOpcode::IS_ACTIVE,
                length: 1,
            }).spec_encode(self.order),
    {
        let request = ExtensionRequest {
            opcode: self.major_opcode,
            minor: MinorOpcode::IS_ACTIVE,
            length: 1,
        };
        Request { bytes: request.encode(self.order), reply: Some(ReplyKind::XineramaIsActive) }
    }

    /// Whether the reply to `is_active` says that Xinerama is active.
    pub fn active_from_reply(reply: Reply) -> (r: Result<bool, Error>)
        ensures
            match reply {
                Reply::XineramaIsActive(response) => r == Ok::<bool, Error>(response.state != 0),
                _ => r == Err::<bool, Error>(Error::InvalidReply),
            },
    {
        match reply {
            Reply::XineramaIsActive(response) => Ok(response.state != 0),
            _ => Err(Error::InvalidReply),
        }
    }
}

} // verus!
