//! Response construction: the exact bytes sent back for each status outcome.
//!
//! Every response begins with a fixed header block whose lines end in CR LF
//! and whose last line is blank. A success response carries the served bytes
//! verbatim after the blank line; error responses carry no body. The header
//! casing is asymmetric on purpose — `server:` on success, `Server:` on
//! errors — and header names are case-insensitive to clients, so both forms
//! are equally well-formed on the wire.

use vstd::prelude::*;
use vstd::string::StrSliceExecFns;

verus! {

/// A status outcome the builder cannot express; reaching it from normal
/// control flow is a programming error, never a client-visible state.
#[derive(Debug, PartialEq, Eq, Structural)]
pub enum BuildError {
    UnsupportedStatus,
}

/// The bytes of an ASCII-only character sequence, one byte per character.
pub open spec fn ascii_bytes_of(s: Seq<char>) -> Seq<u8> {
    Seq::new(s.len(), |i: int| s[i] as u8)
}

/// Header block of a success response, up to and including the blank line.
pub open spec fn header_200() -> Seq<u8> {
    ascii_bytes_of("HTTP/1.0 200 OK\r\nserver: mio webserver\r\n\r\n"@)
}

/// The complete bad-request response.
pub open spec fn response_400() -> Seq<u8> {
    ascii_bytes_of("HTTP/1.0 400 Bad Request\r\nServer: mio webserver\r\n\r\n"@)
}

/// The complete not-found response.
pub open spec fn response_404() -> Seq<u8> {
    ascii_bytes_of("HTTP/1.0 404 Not Found\r\nServer: mio webserver\r\n\r\n"@)
}

/// The complete not-implemented response.
pub open spec fn response_501() -> Seq<u8> {
    ascii_bytes_of("HTTP/1.0 501 Not Implemented\r\nServer: mio webserver\r\n\r\n"@)
}

/// View of an optional payload.
pub open spec fn view_opt(m: Option<Vec<u8>>) -> Option<Seq<u8>> {
    match m {
        Option::Some(v) => Option::Some(v@),
        Option::None => Option::None,
    }
}

/// The response bytes owed for a status code and optional payload:
/// `None` exactly on the status codes the builder does not support.
/// A 200 without a payload is a bare success header.
pub open spec fn response_bytes(status_code: u16, body: Option<Seq<u8>>) -> Option<Seq<u8>> {
    if status_code == 200 {
        match body {
            Option::Some(b) => Option::Some(header_200() + b),
            Option::None => Option::Some(header_200()),
        }
    } else if status_code == 400 {
        Option::Some(response_400())
    } else if status_code == 404 {
        Option::Some(response_404())
    } else if status_code == 501 {
        Option::Some(response_501())
    } else {
        Option::None
    }
}

/// The bytes of an ASCII string literal, as a vector.
pub(crate) fn ascii_vec(s: &str) -> (v: Vec<u8>)
    requires
        s.is_ascii(),
    ensures
        v@ == ascii_bytes_of(s@),
{
    let v = s.as_bytes_vec();
    proof {
        broadcast use vstd::string::is_ascii_spec_bytes;

        assert(v@ =~= ascii_bytes_of(s@));
    }
    v
}

/// Builds the full response for a status outcome: the fixed header block for
/// that status, followed verbatim by the payload when the status is 200.
/// Statuses 400, 404 and 501 ignore any payload; any other status is refused.
pub fn create_msg_from_code(status_code: u16, msg: Option<Vec<u8>>) -> (r: Result<
    Vec<u8>,
    BuildError,
>)
    ensures
        match r {
            Result::Ok(v) => response_bytes(status_code, view_opt(msg)) == Option::Some(v@),
            Result::Err(e) => response_bytes(status_code, view_opt(msg)) is None && e
                == BuildError::UnsupportedStatus,
        },
{
    if status_code == 200 {
        let lit = "HTTP/1.0 200 OK\r\nserver: mio webserver\r\n\r\n";
        proof {
            reveal_strlit("HTTP/1.0 200 OK\r\nserver: mio webserver\r\n\r\n");
            assert(lit.is_ascii());
        }
        let mut header = ascii_vec(lit);
        match msg {
            Option::Some(mut m) => {
                header.append(&mut m);
                Result::Ok(header)
            },
            Option::None => Result::Ok(header),
        }
    } else if status_code == 400 {
        let lit = "HTTP/1.0 400 Bad Request\r\nServer: mio webserver\r\n\r\n";
        proof {
            reveal_strlit("HTTP/1.0 400 Bad Request\r\nServer: mio webserver\r\n\r\n");
            assert(lit.is_ascii());
        }
        Result::Ok(ascii_vec(lit))
    } else if status_code == 404 {
        let lit = "HTTP/1.0 404 Not Found\r\nServer: mio webserver\r\n\r\n";
        proof {
            reveal_strlit("HTTP/1.0 404 Not Found\r\nServer: mio webserver\r\n\r\n");
            assert(lit.is_ascii());
        }
        Result::Ok(ascii_vec(lit))
    } else if status_code == 501 {
        let lit = "HTTP/1.0 501 Not Implemented\r\nServer: mio webserver\r\n\r\n";
        proof {
            reveal_strlit("HTTP/1.0 501 Not Implemented\r\nServer: mio webserver\r\n\r\n");
            assert(lit.is_ascii());
        }
        Result::Ok(ascii_vec(lit))
    } else {
        Result::Err(BuildError::UnsupportedStatus)
    }
}

} // verus!
