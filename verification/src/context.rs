//! The context of one connection, and the messages it makes.
//!
//! The names of error codes and opcodes come from a registry outside this
//! library, which is reached through a handle. A context owns at most one
//! such handle. The caller looks the names of an error up and hands them in;
//! what is made of them is decided here.

use vstd::prelude::*;
use crate::error::{GenericError, ReplyError, XcbError};
use crate::text::{lemma_occurs_between, occurs_in, quote, quoted};

verus! {

/// What the registry answered for the three codes of one error: the name of
/// its error code, of its major opcode and of its minor opcode, each where
/// the registry knows one. The texts stay where the registry keeps them.
#[derive(Clone, Copy, Debug)]
pub struct Names<'a> {
    pub error: Option<&'a str>,
    pub major: Option<&'a str>,
    pub minor: Option<&'a str>,
}

/// The names of one error as plain text.
pub ghost struct NamesView {
    pub error: Option<Seq<char>>,
    pub major: Option<Seq<char>>,
    pub minor: Option<Seq<char>>,
}

/// A name that may be missing, as plain text.
pub open spec fn name_view(name: Option<&str>) -> Option<Seq<char>> {
    match name {
        Some(n) => Some(n@),
        None => None,
    }
}

impl<'a> View for Names<'a> {
    type V = NamesView;

    open spec fn view(&self) -> NamesView {
        NamesView {
            error: name_view(self.error),
            major: name_view(self.major),
            minor: name_view(self.minor),
        }
    }
}

/// What stands in a message for an opcode: its name, or `()` where it has none.
pub open spec fn opcode_text(name: Option<Seq<char>>) -> Seq<char> {
    match name {
        Some(n) => n,
        None => "()"@,
    }
}

/// The message for an error whose code has no name.
pub open spec fn unknown_text(e: GenericError) -> Seq<char> {
    "Unknown Error: "@ + e.text()
}

/// The registry context of one connection. It is active while it owns a
/// handle, and inert from then on. Dropping it gives nothing back to the
/// registry: whoever made it calls `release` and frees what that returns.
#[derive(Debug)]
pub struct ErrorContext {
    handle: usize,
}

impl ErrorContext {
    /// The handle that the context owns; 0 where it owns none.
    pub closed spec fn handle(&self) -> usize {
        self.handle
    }

    /// The context owns a handle, so names can be looked up through it.
    pub open spec fn active(&self) -> bool {
        self.handle() != 0
    }

    /// The handle that is still to be given back to the registry.
    pub open spec fn owned(&self) -> Option<usize> {
        if self.active() {
            Some(self.handle())
        } else {
            None
        }
    }

    /// The context that is made from the handle `handle`.
    pub closed spec fn made(handle: usize) -> ErrorContext {
        ErrorContext { handle }
    }

    /// The context after it was released.
    pub closed spec fn released(self) -> ErrorContext {
        ErrorContext { handle: 0 }
    }

    /// A name as this context sees it: an inert context knows no name.
    pub open spec fn resolved(&self, name: Option<Seq<char>>) -> Option<Seq<char>> {
        if self.active() {
            name
        } else {
            None
        }
    }

    /// The message for a failed reply.
    pub open spec fn reply_text(&self, e: ReplyError, names: NamesView) -> Seq<char> {
        match e {
            ReplyError::NullResponse => "Null Response"@,
            ReplyError::GenericError(g) => match self.resolved(names.error) {
                None => unknown_text(g),
                Some(name) => "Error: "@ + name + ", Major:"@ + opcode_text(names.major)
                    + ", Minor:"@ + opcode_text(names.minor),
            },
        }
    }

    /// The message for a protocol error.
    pub open spec fn generic_text(&self, e: GenericError, name: Option<Seq<char>>) -> Seq<char> {
        match self.resolved(name) {
            None => unknown_text(e),
            Some(n) => n + " - "@ + quoted(e.text()),
        }
    }

    /// Makes the context from what the registry's constructor answered: its
    /// status and the handle it filled in. A status other than 0 is a failure.
    /// With status 0 and no handle the context is inert from the start.
    pub fn new(status: i32, handle: usize) -> (r: Result<ErrorContext, XcbError>)
        ensures
            status == 0 ==> r == Ok::<ErrorContext, XcbError>(ErrorContext::made(handle)),
            status == 0 ==> (r matches Ok(ctx) && ctx.handle() == handle),
            status != 0 ==> (r matches Err(e) && e == XcbError::ConstructionError(status)),
    {
        if status == 0 {
            Ok(ErrorContext { handle })
        } else {
            Err(XcbError::ConstructionError(status))
        }
    }

    /// Whether names can be looked up through this context.
    pub fn is_active(&self) -> (r: bool)
        ensures
            r == self.active(),
    {
        self.handle != 0
    }

    /// The handle to look names up through, if the context is active.
    pub fn lookup_handle(&self) -> (r: Option<usize>)
        ensures
            r == self.owned(),
    {
        if self.handle != 0 {
            Some(self.handle)
        } else {
            None
        }
    }

    /// Ends the context. Returns the handle that the caller now has to give
    /// back to the registry, or `None` if there is none (any more).
    pub fn release(&mut self) -> (freed: Option<usize>)
        ensures
            freed == old(self).owned(),
            *final(self) == old(self).released(),
            !final(self).active(),
    {
        let freed = self.lookup_handle();
        self.handle = 0;
        freed
    }

    /// The message for a failed reply `e`, where `names` is what the registry
    /// answered for the codes of `e`.
    pub fn reply_message(&self, e: ReplyError, names: &Names) -> (r: String)
        ensures
            r@ == self.reply_text(e, names@),
            e is NullResponse ==> r@ == "Null Response"@,
            self.active() && e is GenericError && names@.error is Some ==> {
                let name = names@.error->0;
                &&& names@.major is None && names@.minor is None ==> r@ == "Error: "@ + name
                    + ", Major:(), Minor:()"@
                &&& names@.major is None && names@.minor is Some ==> r@ == "Error: "@ + name
                    + ", Major:(), Minor:"@ + names@.minor->0
                &&& names@.major is Some && names@.minor is None ==> r@ == "Error: "@ + name
                    + ", Major:"@ + names@.major->0 + ", Minor:()"@
            },
    {
        let g = match e {
            ReplyError::NullResponse => {
                return String::from_str("Null Response");
            },
            ReplyError::GenericError(g) => g,
        };
        let active = self.is_active();
        let name = match names.error {
            Some(name) if active => name,
            _ => {
                return unknown_message(g);
            },
        };
        let major = match names.major {
            Some(major) => major,
            None => "()",
        };
        let minor = match names.minor {
            Some(minor) => minor,
            None => "()",
        };
        let mut r = String::from_str("Error: ");
        r.append(name);
        r.append(", Major:");
        r.append(major);
        r.append(", Minor:");
        r.append(minor);
        proof {
            lemma_literals_join(name@, major@, minor@);
        }
        r
    }

    /// The message for a protocol error `e`, where `name` is what the
    /// registry answered for the error code of `e`.
    pub fn generic_message(&self, e: GenericError, name: Option<&str>) -> (r: String)
        ensures
            r@ == self.generic_text(e, name_view(name)),
            self.active() ==> (name matches Some(n) ==> occurs_in(n@, r@)),
            !self.active() || name is None ==> "Unknown Error:"@.is_prefix_of(r@),
            !self.active() || name is None ==> occurs_in(e.text(), r@),
    {
        let active = self.is_active();
        match name {
            Some(n) if active => {
                let mut r = String::from_str(n);
                r.append(" - ");
                proof {
                    e.lemma_text_is_plain();
                }
                r.append(quote(e.to_text().as_str()).as_str());
                proof {
                    lemma_occurs_between(Seq::empty(), n@, " - "@ + quoted(e.text()));
                    assert(Seq::<char>::empty() + n@ + (" - "@ + quoted(e.text())) =~= r@);
                }
                r
            },
            _ => unknown_message(e),
        }
    }
}

/// Asked twice for the message of one failed reply with the same names, a
/// context answers with the same text.
pub proof fn lemma_reply_message_repeats(
    ctx: ErrorContext,
    e: ReplyError,
    names: Names,
    first: String,
    second: String,
)
    requires
        call_ensures(ErrorContext::reply_message, (&ctx, e, &names), first),
        call_ensures(ErrorContext::reply_message, (&ctx, e, &names), second),
    ensures
        first@ == second@,
{
}

/// Asked twice for the message of one protocol error with the same name, a
/// context answers with the same text.
pub proof fn lemma_generic_message_repeats(
    ctx: ErrorContext,
    e: GenericError,
    name: Option<&str>,
    first: String,
    second: String,
)
    requires
        call_ensures(ErrorContext::generic_message, (&ctx, e, name), first),
        call_ensures(ErrorContext::generic_message, (&ctx, e, name), second),
    ensures
        first@ == second@,
{
}

/// An inert context looks nothing up: whatever names are handed in, a
/// protocol error gets the message of an unknown error.
pub proof fn lemma_inert_knows_no_name(ctx: ErrorContext, g: GenericError, names: NamesView)
    requires
        !ctx.active(),
    ensures
        ctx.reply_text(ReplyError::GenericError(g), names) == unknown_text(g),
        ctx.generic_text(g, names.error) == unknown_text(g),
{
}

/// The life of a handle. A context made from a handle owns exactly that
/// handle, or nothing where the handle is 0. Released at once, it hands that
/// handle back, and what is left owns nothing.
pub proof fn lemma_handle_is_given_back_once(handle: usize)
    ensures
        ErrorContext::made(handle).handle() == handle,
        handle != 0 ==> ErrorContext::made(handle).owned() == Some(handle),
        handle == 0 ==> ErrorContext::made(handle).owned() is None,
        ErrorContext::made(handle).released().owned() is None,
{
}

/// A released context is inert and stays so: release hands nothing back a
/// second time, and leaves an inert context as it is.
pub proof fn lemma_release_is_final(ctx: ErrorContext)
    ensures
        ctx.released().handle() == 0,
        !ctx.released().active(),
        ctx.released().owned() is None,
        ctx.released().released() == ctx.released(),
        !ctx.active() ==> ctx.released() == ctx,
{
}

/// The message for an error whose code has no name.
fn unknown_message(e: GenericError) -> (r: String)
    ensures
        r@ == unknown_text(e),
        "Unknown Error:"@.is_prefix_of(r@),
        occurs_in(e.text(), r@),
{
    let mut r = String::from_str("Unknown Error: ");
    r.append(e.to_text().as_str());
    proof {
        reveal_strlit("Unknown Error: ");
        reveal_strlit("Unknown Error:");
        lemma_occurs_between("Unknown Error: "@, e.text(), Seq::empty());
        assert("Unknown Error: "@ + e.text() + Seq::<char>::empty() =~= r@);
        assert("Unknown Error:"@ =~= r@.subrange(0, "Unknown Error:"@.len() as int));
    }
    r
}

/// How the pieces of a reply message run together where an opcode has no name.
proof fn lemma_literals_join(name: Seq<char>, major: Seq<char>, minor: Seq<char>)
    ensures
        "Error: "@ + name + ", Major:"@ + "()"@ + ", Minor:"@ + "()"@ == "Error: "@ + name
            + ", Major:(), Minor:()"@,
        "Error: "@ + name + ", Major:"@ + "()"@ + ", Minor:"@ + minor == "Error: "@ + name
            + ", Major:(), Minor:"@ + minor,
        "Error: "@ + name + ", Major:"@ + major + ", Minor:"@ + "()"@ == "Error: "@ + name
            + ", Major:"@ + major + ", Minor:()"@,
{
    reveal_strlit("()");
    reveal_strlit(", Major:");
    reveal_strlit(", Minor:");
    reveal_strlit(", Major:(), Minor:()");
    reveal_strlit(", Major:(), Minor:");
    reveal_strlit(", Minor:()");
    let head = "Error: "@ + name;
    assert(", Major:"@ + "()"@ + ", Minor:"@ + "()"@ =~= ", Major:(), Minor:()"@);
    assert(head + ", Major:"@ + "()"@ + ", Minor:"@ + "()"@ =~= head + (", Major:"@ + "()"@
        + ", Minor:"@ + "()"@));
    assert(", Major:"@ + "()"@ + ", Minor:"@ =~= ", Major:(), Minor:"@);
    assert(head + ", Major:"@ + "()"@ + ", Minor:"@ + minor =~= head + (", Major:"@ + "()"@
        + ", Minor:"@) + minor);
    assert(", Minor:"@ + "()"@ =~= ", Minor:()"@);
    assert(head + ", Major:"@ + major + ", Minor:"@ + "()"@ =~= head + ", Major:"@ + major
        + (", Minor:"@ + "()"@));
}

} // verus!
