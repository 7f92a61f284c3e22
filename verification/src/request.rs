//! Request interpretation: from raw received bytes to an action.
//!
//! A request is acceptable when the whole input decodes as UTF-8 and its first
//! line has the shape `method SP path SP HTTP/1.d CR LF`, where the method and
//! path tokens are free of spaces, carriage returns and line feeds, and `d` is
//! the digit 0 or 1. The version digit is parsed but never changes behaviour.
//! Input that fails either test is answered 400; an acceptable line whose
//! method is not `GET` is answered 501; a `GET` asks the caller to read the
//! named resource, and the outcome of that read decides between 200 and 404.

use vstd::prelude::*;
use vstd::utf8::valid_utf8;

use crate::response::ascii_bytes_of;
use crate::response::ascii_vec;
use crate::response::create_msg_from_code;
use crate::response::header_200;
use crate::response::response_400;
use crate::response::response_404;
use crate::response::response_501;
use crate::response::view_opt;

verus! {

pub const SPACE: u8 = 32;

pub const CR: u8 = 13;

pub const LF: u8 = 10;

/// What interpretation asks of the caller: fetch the named resource's bytes,
/// or send back an immediate error response with the given status code.
pub enum RequestAction {
    Fetch(Vec<u8>),
    Respond(u16),
}

/// Index of the first occurrence of `b` in `s` at or after `i`, or `s.len()`
/// when there is none (or `i` lies outside the sequence).
pub open spec fn find_byte(s: Seq<u8>, b: u8, i: int) -> int
    decreases s.len() - i,
{
    if i < 0 || i >= s.len() {
        s.len() as int
    } else if s[i] == b {
        i
    } else {
        find_byte(s, b, i + 1)
    }
}

/// End of the method token: position of the first space.
pub open spec fn method_end(s: Seq<u8>) -> int {
    find_byte(s, SPACE, 0)
}

/// End of the path token: position of the first space after the method.
pub open spec fn path_end(s: Seq<u8>) -> int {
    find_byte(s, SPACE, method_end(s) + 1)
}

/// The required request-line shape: a method token, a space, a path token, a
/// space, the literal `HTTP/1.` and a version digit 0 or 1, then CR LF. The
/// tokens contain no space (by construction of the two delimiters) and no CR
/// or LF.
pub open spec fn request_shape(s: Seq<u8>) -> bool {
    let i = method_end(s);
    let j = path_end(s);
    &&& j + 11 <= s.len()
    &&& (forall|k: int| 0 <= k < j ==> s[k] != CR && s[k] != LF)
    &&& s[j + 1] == 72
    &&& s[j + 2] == 84
    &&& s[j + 3] == 84
    &&& s[j + 4] == 80
    &&& s[j + 5] == 47
    &&& s[j + 6] == 49
    &&& s[j + 7] == 46
    &&& (s[j + 8] == 48 || s[j + 8] == 49)
    &&& s[j + 9] == CR
    &&& s[j + 10] == LF
}

/// The method token of a well-shaped request line.
pub open spec fn method_of(s: Seq<u8>) -> Seq<u8> {
    s.subrange(0, method_end(s))
}

/// The path token of a well-shaped request line.
pub open spec fn path_of(s: Seq<u8>) -> Seq<u8> {
    s.subrange(method_end(s) + 1, path_end(s))
}

/// The bytes of the one recognized retrieval method, `GET`.
pub open spec fn get_token() -> Seq<u8> {
    seq![71u8, 69u8, 84u8]
}

pub open spec fn is_get(s: Seq<u8>) -> bool {
    method_of(s) == get_token()
}

/// Relies on `std::str::from_utf8`: it succeeds exactly on input that is
/// valid UTF-8, the property that `vstd::utf8::valid_utf8` models.
#[verifier::external_body]
fn utf8_ok(b: &[u8]) -> (r: bool)
    ensures
        r == valid_utf8(b@),
{
    std::str::from_utf8(b).is_ok()
}

/// Index of the first occurrence of `b` in `s` at or after `start`, or the
/// length of `s` when there is none.
fn find_byte_in(s: &[u8], b: u8, start: usize) -> (r: usize)
    requires
        start <= s@.len(),
    ensures
        r == find_byte(s@, b, start as int),
        start <= r <= s@.len(),
{
    let n = s.len();
    let mut k = start;
    while k < n
        invariant
            start <= k <= n,
            n == s@.len(),
            find_byte(s@, b, start as int) == find_byte(s@, b, k as int),
        decreases n - k,
    {
        if s[k] == b {
            return k;
        }
        k = k + 1;
    }
    k
}

/// Interprets raw request bytes. Input that does not decode as UTF-8 or does
/// not match the request-line shape earns an immediate 400; a well-shaped
/// line with any method but `GET` earns an immediate 501; a `GET` yields the
/// extracted path token, whose resource the caller is to fetch.
pub fn resolve_request(input: &[u8]) -> (a: RequestAction)
    ensures
        !(valid_utf8(input@) && request_shape(input@)) ==> a == RequestAction::Respond(400u16),
        valid_utf8(input@) && request_shape(input@) && !is_get(input@) ==> a
            == RequestAction::Respond(501u16),
        valid_utf8(input@) && request_shape(input@) && is_get(input@) ==> (a matches
            RequestAction::Fetch(p) && p@ == path_of(input@)),
{
    let n = input.len();
    if !utf8_ok(input) {
        return RequestAction::Respond(400);
    }
    let i = find_byte_in(input, SPACE, 0);
    if i == n {
        proof {
            assert(find_byte(input@, SPACE, n + 1) == n);
            assert(!request_shape(input@));
        }
        return RequestAction::Respond(400);
    }
    let j = find_byte_in(input, SPACE, i + 1);
    if n - j < 11 {
        proof {
            assert(!request_shape(input@));
        }
        return RequestAction::Respond(400);
    }
    let line_ok = input[j + 1] == 72 && input[j + 2] == 84 && input[j + 3] == 84 && input[j + 4]
        == 80 && input[j + 5] == 47 && input[j + 6] == 49 && input[j + 7] == 46 && (input[j + 8]
        == 48 || input[j + 8] == 49) && input[j + 9] == CR && input[j + 10] == LF;
    if !line_ok {
        proof {
            assert(!request_shape(input@));
        }
        return RequestAction::Respond(400);
    }
    let mut k: usize = 0;
    while k < j
        invariant
            0 <= k <= j,
            j < n,
            n == input@.len(),
            j == path_end(input@),
            forall|m: int| 0 <= m < k ==> input@[m] != CR && input@[m] != LF,
        decreases j - k,
    {
        if input[k] == CR || input[k] == LF {
            proof {
                assert(!request_shape(input@));
            }
            return RequestAction::Respond(400);
        }
        k = k + 1;
    }
    proof {
        assert(request_shape(input@));
    }
    let get_method = i == 3 && input[0] == 71 && input[1] == 69 && input[2] == 84;
    if get_method {
        proof {
            assert(method_of(input@) =~= get_token());
        }
        let mut p: Vec<u8> = Vec::new();
        let mut m = i + 1;
        while m < j
            invariant
                i + 1 <= m <= j,
                j < n,
                n == input@.len(),
                p@ == input@.subrange(i + 1, m as int),
            decreases j - m,
        {
            p.push(input[m]);
            proof {
                assert(p@ =~= input@.subrange(i + 1, m + 1));
            }
            m = m + 1;
        }
        proof {
            assert(p@ =~= path_of(input@));
        }
        RequestAction::Fetch(p)
    } else {
        proof {
            if i == 3 {
                assert(method_of(input@).len() == 3);
                assert(!is_get(input@)) by {
                    assert(method_of(input@)[0] == input@[0]);
                    assert(method_of(input@)[1] == input@[1]);
                    assert(method_of(input@)[2] == input@[2]);
                };
            } else {
                assert(method_of(input@).len() == i);
                assert(!is_get(input@));
            }
        }
        RequestAction::Respond(501)
    }
}

/// The complete response owed for raw request bytes and the outcome of the
/// resource read that a retrieval request triggers (`None`: the resource
/// could not be opened and fully read; the read outcome is irrelevant to a
/// rejected request).
pub open spec fn response_for(input: Seq<u8>, file: Option<Seq<u8>>) -> Seq<u8> {
    if !(valid_utf8(input) && request_shape(input)) {
        response_400()
    } else if !is_get(input) {
        response_501()
    } else {
        match file {
            Option::Some(f) => header_200() + f,
            Option::None => response_404(),
        }
    }
}

/// The fixed segment under the process's working directory that all served
/// resources live beneath.
pub open spec fn webroot() -> Seq<u8> {
    ascii_bytes_of("/webroot"@)
}

/// The requested path appended verbatim to the fixed webroot segment; the
/// caller prefixes its working directory to obtain the filesystem path. No
/// normalization, percent-decoding or traversal confinement is applied: the
/// served tree is exactly what the verbatim concatenation reaches, so
/// confining requests to the document root is left to deployment.
pub fn resource_location(path: &[u8]) -> (v: Vec<u8>)
    ensures
        v@ == webroot() + path@,
{
    let lit = "/webroot";
    proof {
        reveal_strlit("/webroot");
        assert(lit.is_ascii());
    }
    let mut v = ascii_vec(lit);
    let n = path.len();
    let mut k: usize = 0;
    while k < n
        invariant
            0 <= k <= n,
            n == path@.len(),
            v@ == webroot() + path@.subrange(0, k as int),
        decreases n - k,
    {
        v.push(path[k]);
        proof {
            assert(v@ =~= webroot() + path@.subrange(0, k + 1));
        }
        k = k + 1;
    }
    proof {
        assert(v@ =~= webroot() + path@);
    }
    v
}

/// Law: a well-shaped retrieval request whose resource was read in full is
/// answered by the success header followed by exactly the bytes read.
pub proof fn lemma_served_file(input: Seq<u8>, f: Seq<u8>)
    requires
        valid_utf8(input),
        request_shape(input),
        is_get(input),
    ensures
        response_for(input, Option::Some(f)) == header_200() + f,
{
}

/// Law: a retrieval request whose resource could not be read is answered by
/// the not-found bytes alone, with no body.
pub proof fn lemma_missing_file(input: Seq<u8>)
    requires
        valid_utf8(input),
        request_shape(input),
        is_get(input),
    ensures
        response_for(input, Option::None) == response_404(),
{
}

/// Law: a well-shaped request with any method but the retrieval method is
/// answered by the not-implemented bytes, whatever any resource read gives.
pub proof fn lemma_unsupported_method(input: Seq<u8>, file: Option<Seq<u8>>)
    requires
        valid_utf8(input),
        request_shape(input),
        !is_get(input),
    ensures
        response_for(input, file) == response_501(),
{
}

/// Law: input that does not decode as UTF-8, or does not match the
/// request-line shape, is answered by the bad-request bytes, whatever any
/// resource read gives.
pub proof fn lemma_malformed_input(input: Seq<u8>, file: Option<Seq<u8>>)
    requires
        !valid_utf8(input) || !request_shape(input),
    ensures
        response_for(input, file) == response_400(),
{
}

/// Law: the response is a function of the request bytes and the read outcome
/// alone, so repeating a request against an unchanged resource yields
/// byte-identical responses.
pub proof fn lemma_response_repeatable(
    input: Seq<u8>,
    file: Option<Seq<u8>>,
    r1: Seq<u8>,
    r2: Seq<u8>,
)
    requires
        r1 == response_for(input, file),
        r2 == response_for(input, file),
    ensures
        r1 == r2,
{
}

/// The resolution of a request together with its resource read: serve these
/// bytes with status 200, or fail with status 400, 404 or 501. Resolution
/// never produces another state.
pub enum Resolved {
    Serve(Vec<u8>),
    Error(u16),
}

/// Resolves raw request bytes and the outcome of the resource read they
/// called for: a rejected request keeps its 400 or 501; a retrieval request
/// serves the bytes read, or fails 404 when the resource could not be read.
pub fn resolve_outcome(input: &[u8], file: Option<Vec<u8>>) -> (r: Resolved)
    ensures
        !(valid_utf8(input@) && request_shape(input@)) ==> r == Resolved::Error(400u16),
        valid_utf8(input@) && request_shape(input@) && !is_get(input@) ==> r == Resolved::Error(
            501u16,
        ),
        valid_utf8(input@) && request_shape(input@) && is_get(input@) ==> match view_opt(file) {
            Option::Some(f) => r matches Resolved::Serve(v) && v@ == f,
            Option::None => r == Resolved::Error(404u16),
        },
{
    match resolve_request(input) {
        RequestAction::Respond(code) => Resolved::Error(code),
        RequestAction::Fetch(_) => match file {
            Option::Some(f) => Resolved::Serve(f),
            Option::None => Resolved::Error(404),
        },
    }
}

/// Builds the one response owed for the given request bytes and read outcome.
pub fn make_response(input: &[u8], file: Option<Vec<u8>>) -> (r: Vec<u8>)
    ensures
        r@ == response_for(input@, view_opt(file)),
{
    let built = match resolve_outcome(input, file) {
        Resolved::Serve(f) => create_msg_from_code(200, Option::Some(f)),
        Resolved::Error(code) => create_msg_from_code(code, Option::None),
    };
    match built {
        Result::Ok(v) => v,
        Result::Err(_) => {
            proof {
                assert(false);
            }
            Vec::new()
        },
    }
}

} // verus!
