//! The error values that messages are made from, and the failures handed to callers.

use vstd::prelude::*;
use crate::context::{name_view, ErrorContext, Names};
use crate::text::{decimal, decimal_text, lemma_decimal_is_plain, plain_text};

verus! {

/// `xcb::ConnError`, the failure that xcb reports for a connection. Nothing is
/// assumed of what a value holds: it is only carried on to the caller.
#[verifier::external_type_specification]
#[verifier::external_body]
pub struct ExConnError(xcb::ConnError);

/// A protocol error as the X server sent it, reduced to the fields that a
/// message is made of.
#[derive(Clone, Copy, Debug, PartialEq, Eq, Structural)]
pub struct GenericError {
    pub response_type: u8,
    pub error_code: u8,
    pub major_code: u8,
    pub minor_code: u16,
}

impl GenericError {
    /// The text under which xcb prints such an error: it names the response
    /// type and the error code, and neither opcode.
    pub open spec fn text(self) -> Seq<char> {
        "xcb::Error { response_type: "@ + decimal(self.response_type as nat) + ", error_code: "@
            + decimal(self.error_code as nat) + " }"@
    }

    /// The text of an error holds plain characters only, whatever its codes.
    pub proof fn lemma_text_is_plain(self)
        ensures
            plain_text(self.text()),
    {
        reveal_strlit("xcb::Error { response_type: ");
        reveal_strlit(", error_code: ");
        reveal_strlit(" }");
        lemma_decimal_is_plain(self.response_type as nat);
        lemma_decimal_is_plain(self.error_code as nat);
    }

    /// The error as text.
    pub fn to_text(&self) -> (r: String)
        ensures
            r@ == self.text(),
    {
        let mut r = String::from_str("xcb::Error { response_type: ");
        r.append(decimal_text(self.response_type).as_str());
        r.append(", error_code: ");
        r.append(decimal_text(self.error_code).as_str());
        r.append(" }");
        r
    }
}

/// Why a request got no reply.
#[derive(Clone, Copy, Debug, PartialEq, Eq, Structural)]
pub enum ReplyError {
    /// The server sent nothing at all.
    NullResponse,
    /// The server answered with a protocol error.
    GenericError(GenericError),
}

/// A failure as callers see it.
#[derive(Debug)]
pub enum XcbError {
    /// A protocol error, with its message.
    GenericError(String),
    /// A failed reply, with its message.
    ReplyError(String),
    /// A failure of the connection itself, as xcb reported it.
    ConnectionError(xcb::ConnError),
    /// No context could be made: the status that the registry returned.
    ConstructionError(i32),
}

impl XcbError {
    /// The failure that a failed reply becomes. It is filed as a protocol
    /// failure and carries the message of the reply.
    pub fn from_generic_reply(
        context: &ErrorContext,
        e: ReplyError,
        names: &Names,
    ) -> (r: XcbError)
        ensures
            r matches XcbError::GenericError(m) && m@ == context.reply_text(e, names@),
    {
        XcbError::GenericError(context.reply_message(e, names))
    }

    /// The failure that a protocol error becomes: it carries the error's message.
    pub fn from_generic(
        context: &ErrorContext,
        e: GenericError,
        name: Option<&str>,
    ) -> (r: XcbError)
        ensures
            r matches XcbError::GenericError(m) && m@ == context.generic_text(e, name_view(name)),
    {
        XcbError::GenericError(context.generic_message(e, name))
    }
}

impl From<xcb::ConnError> for XcbError {
    fn from(e: xcb::ConnError) -> (r: XcbError) {
        XcbError::ConnectionError(e)
    }
}

impl vstd::std_specs::convert::FromSpecImpl<xcb::ConnError> for XcbError {
    open spec fn obeys_from_spec() -> bool {
        true
    }

    open spec fn from_spec(e: xcb::ConnError) -> XcbError {
        XcbError::ConnectionError(e)
    }
}

} // verus!
