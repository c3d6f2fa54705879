//! Responses to tool calls and their one-line text form.

use vstd::prelude::*;
use crate::args::str_eq;

verus! {

/// The kinds of failure a call can be answered with.
#[derive(PartialEq, Eq, Structural, Clone, Copy, Debug)]
pub enum ErrorKind {
    UnknownTool,
    InvalidArguments,
    HandlerError,
}

/// A failure: its kind and a message for the caller.
pub struct ToolError {
    pub kind: ErrorKind,
    pub message: String,
}

/// The answer to one request.
pub enum Response {
    /// The tool's textual result.
    Success(String),
    Failure(ToolError),
}

/// Two responses say the same thing.
pub open spec fn same_response(a: Response, b: Response) -> bool {
    match (a, b) {
        (Response::Success(x), Response::Success(y)) => x@ == y@,
        (Response::Failure(x), Response::Failure(y)) => x.kind == y.kind && x.message@ == y.message@,
        _ => false,
    }
}

pub open spec fn kind_tag(k: ErrorKind) -> Seq<char> {
    match k {
        ErrorKind::UnknownTool => "error unknown_tool "@,
        ErrorKind::InvalidArguments => "error invalid_arguments "@,
        ErrorKind::HandlerError => "error handler_error "@,
    }
}

pub open spec fn success_tag() -> Seq<char> {
    "ok "@
}

/// The text form of a response: a tag, then the result or message as it is.
pub open spec fn encoding(r: Response) -> Seq<char> {
    match r {
        Response::Success(t) => success_tag() + t@,
        Response::Failure(e) => kind_tag(e.kind) + e.message@,
    }
}

pub open spec fn has_prefix(s: Seq<char>, p: Seq<char>) -> bool {
    p.len() <= s.len() && s.subrange(0, p.len() as int) == p
}

/// Text that starts with one of the tags.
pub open spec fn well_formed(s: Seq<char>) -> bool {
    has_prefix(s, success_tag()) || has_prefix(s, kind_tag(ErrorKind::UnknownTool))
        || has_prefix(s, kind_tag(ErrorKind::InvalidArguments))
        || has_prefix(s, kind_tag(ErrorKind::HandlerError))
}

fn starts_with(s: &str, p: &str) -> (r: bool)
    ensures
        r == has_prefix(s@, p@),
{
    let n = p.unicode_len();
    if n > s.unicode_len() {
        return false;
    }
    str_eq(s.substring_char(0, n), p)
}

fn tag_str(k: ErrorKind) -> (r: &'static str)
    ensures
        r@ == kind_tag(k),
{
    match k {
        ErrorKind::UnknownTool => "error unknown_tool ",
        ErrorKind::InvalidArguments => "error invalid_arguments ",
        ErrorKind::HandlerError => "error handler_error ",
    }
}

/// Writes a response as text.
pub fn encode(r: &Response) -> (s: String)
    ensures
        s@ == encoding(*r),
{
    match r {
        Response::Success(t) => {
            let mut s = String::from_str("ok ");
            s.append(t.as_str());
            s
        },
        Response::Failure(e) => {
            let mut s = String::from_str(tag_str(e.kind));
            s.append(e.message.as_str());
            s
        },
    }
}

fn rest(s: &str, n: usize) -> (r: String)
    requires
        n <= s@.len(),
    ensures
        r@ == s@.subrange(n as int, s@.len() as int),
{
    String::from_str(s.substring_char(n, s.unicode_len()))
}

/// Reads a response back from its text form; `None` where the text starts
/// with no known tag.
pub fn decode(s: &str) -> (r: Option<Response>)
    ensures
        r is None <==> !well_formed(s@),
        r matches Some(resp) ==> encoding(resp) == s@,
{
    let kinds = [ErrorKind::UnknownTool, ErrorKind::InvalidArguments, ErrorKind::HandlerError];
    proof { reveal_strlit("ok "); }
    if starts_with(s, "ok ") {
        let t = rest(s, 3);
        assert(success_tag() + t@ =~= s@);
        return Some(Response::Success(t));
    }
    let mut i: usize = 0;
    while i < 3
        invariant
            i <= 3,
            kinds@ == seq![ErrorKind::UnknownTool, ErrorKind::InvalidArguments, ErrorKind::HandlerError],
            !has_prefix(s@, success_tag()),
            forall|k: int| 0 <= k < i ==> !has_prefix(s@, kind_tag(kinds@[k])),
        decreases 3 - i,
    {
        let kind = kinds[i];
        let tag = tag_str(kind);
        if starts_with(s, tag) {
            let message = rest(s, tag.unicode_len());
            assert(kind_tag(kind) + message@ =~= s@);
            return Some(Response::Failure(ToolError { kind, message }));
        }
        i = i + 1;
    }
    None
}

proof fn lemma_tags_apart()
    ensures
        success_tag()[0] == 'o',
        kind_tag(ErrorKind::UnknownTool)[0] == 'e',
        kind_tag(ErrorKind::InvalidArguments)[0] == 'e',
        kind_tag(ErrorKind::HandlerError)[0] == 'e',
        kind_tag(ErrorKind::UnknownTool)[6] == 'u',
        kind_tag(ErrorKind::InvalidArguments)[6] == 'i',
        kind_tag(ErrorKind::HandlerError)[6] == 'h',
        success_tag().len() == 3,
        forall|k: ErrorKind| kind_tag(k).len() > 6,
{
    reveal_strlit("ok ");
    reveal_strlit("error unknown_tool ");
    reveal_strlit("error invalid_arguments ");
    reveal_strlit("error handler_error ");
}

/// Decoding undoes encoding: the text form of any response starts with a known
/// tag, and only responses that say the same thing share a text form. So
/// `decode(encode(r))` gives back a response equal to `r`, on success and on
/// failure alike.
pub proof fn lemma_round_trip(a: Response, b: Response)
    ensures
        well_formed(encoding(a)),
        encoding(a) == encoding(b) ==> same_response(a, b),
{
    lemma_tags_apart();
    let s = encoding(a);
    match a {
        Response::Success(t) => {
            assert(s.subrange(0, 3) =~= success_tag());
        },
        Response::Failure(e) => {
            assert(s.subrange(0, kind_tag(e.kind).len() as int) =~= kind_tag(e.kind));
        },
    }
    if encoding(a) == encoding(b) {
        match (a, b) {
            (Response::Success(x), Response::Success(y)) => {
                assert(x@ =~= s.subrange(3, s.len() as int));
                assert(y@ =~= s.subrange(3, s.len() as int));
            },
            (Response::Failure(x), Response::Failure(y)) => {
                assert(s[6] == kind_tag(x.kind)[6]);
                assert(s[6] == kind_tag(y.kind)[6]);
                let n = kind_tag(x.kind).len() as int;
                assert(x.message@ =~= s.subrange(n, s.len() as int));
                assert(y.message@ =~= s.subrange(n, s.len() as int));
            },
            (Response::Success(x), Response::Failure(y)) => {
                assert(s[0] == 'o');
                assert(s[0] == kind_tag(y.kind)[0]);
            },
            (Response::Failure(x), Response::Success(y)) => {
                assert(s[0] == 'o');
                assert(s[0] == kind_tag(x.kind)[0]);
            },
        }
    }
}

} // verus!
