//! Request handling: classify a request line, frame a response.
//!
//! The protocol is deliberately minimal. Only the first line of a
//! connection is consulted: the exact line `GET / HTTP/1.1` selects the
//! success status and the index page; every other line selects the
//! not-found status and the error page. The response is the status line,
//! a `Content-Length` header holding the exact byte length of the body, a
//! blank line, and the body.
//!
//! Reading from and writing to sockets, and loading the page files, happen
//! outside the library; these functions compute from the request line and
//! the page contents alone.

use vstd::prelude::*;
use vstd::string::StringExecFns;
use vstd::utf8::encode_utf8;

verus! {

/// The byte length of a string's UTF-8 encoding (which is what
/// `Content-Length` must carry, not the character count).
pub open spec fn byte_len(s: Seq<char>) -> nat {
    encode_utf8(s).len()
}

/// The decimal digit for a value below ten.
pub open spec fn dec_digit(d: nat) -> char {
    ((48 + d) as u8) as char
}

/// The decimal numeral of `n`, most significant digit first.
pub open spec fn spec_decimal(n: nat) -> Seq<char>
    decreases n,
{
    if n < 10 {
        seq![dec_digit(n)]
    } else {
        spec_decimal(n / 10).push(dec_digit(n % 10))
    }
}

/// The one-character string for a decimal digit.
fn digit_str(d: usize) -> (r: &'static str)
    requires
        d < 10,
    ensures
        r@ == seq![dec_digit(d as nat)],
{
    let r = match d {
        0 => "0",
        1 => "1",
        2 => "2",
        3 => "3",
        4 => "4",
        5 => "5",
        6 => "6",
        7 => "7",
        8 => "8",
        _ => "9",
    };
    proof {
        reveal_strlit("0");
        reveal_strlit("1");
        reveal_strlit("2");
        reveal_strlit("3");
        reveal_strlit("4");
        reveal_strlit("5");
        reveal_strlit("6");
        reveal_strlit("7");
        reveal_strlit("8");
        reveal_strlit("9");
        assert(r@ =~= seq![dec_digit(d as nat)]);
    }
    r
}

/// Render `n` in decimal.
pub fn usize_to_decimal(n: usize) -> (r: String)
    ensures
        r@ == spec_decimal(n as nat),
    decreases n,
{
    if n < 10 {
        digit_str(n).to_owned()
    } else {
        let mut r = usize_to_decimal(n / 10);
        r.append(digit_str(n % 10));
        proof {
            assert(r@ =~= spec_decimal(n as nat));
        }
        r
    }
}

/// Whether a request line is the one request this server recognises.
pub open spec fn spec_is_root_get(line: Seq<char>) -> bool {
    line == "GET / HTTP/1.1"@
}

/// The status line a request line is answered with.
pub open spec fn spec_status_line(line: Seq<char>) -> Seq<char> {
    if spec_is_root_get(line) {
        "HTTP/1.1 200 OK"@
    } else {
        "HTTP/1.1 404 NOT FOUND"@
    }
}

/// The file whose contents become the response body.
pub open spec fn spec_file_name(line: Seq<char>) -> Seq<char> {
    if spec_is_root_get(line) {
        "index.html"@
    } else {
        "404.html"@
    }
}

/// Classify a request line into its status line and target file name:
/// exactly `GET / HTTP/1.1` is served the index page, everything else the
/// not-found page.
pub fn get_status_file_name(request_line: &String) -> (r: (String, String))
    ensures
        r.0@ == spec_status_line(request_line@),
        r.1@ == spec_file_name(request_line@),
{
    let target: String = String::from_str("GET / HTTP/1.1");
    if *request_line == target {
        (String::from_str("HTTP/1.1 200 OK"), String::from_str("index.html"))
    } else {
        (String::from_str("HTTP/1.1 404 NOT FOUND"), String::from_str("404.html"))
    }
}

/// The full response for a status line and a body: status, a
/// `Content-Length` header carrying the body's byte length, a blank line,
/// then the body.
pub open spec fn spec_compose(status: Seq<char>, contents: Seq<char>) -> Seq<char> {
    status + "\r\nContent-Length: "@ + spec_decimal(byte_len(contents)) + "\r\n\r\n"@ + contents
}

/// Frame a response from a status line and the body contents.
pub fn compose_response(status_line: &String, contents: &String) -> (r: String)
    requires
        byte_len(contents@) <= usize::MAX,
    ensures
        r@ == spec_compose(status_line@, contents@),
{
    let length = contents.as_str().len();
    let mut r = status_line.clone();
    r.append("\r\nContent-Length: ");
    let digits = usize_to_decimal(length);
    r.append(digits.as_str());
    r.append("\r\n\r\n");
    r.append(contents.as_str());
    proof {
        assert(r@ =~= spec_compose(status_line@, contents@));
    }
    r
}

/// The response a request line receives, given the two pages the server
/// can serve.
pub open spec fn spec_response(line: Seq<char>, index_page: Seq<char>, not_found_page: Seq<char>) -> Seq<char> {
    if spec_is_root_get(line) {
        spec_compose("HTTP/1.1 200 OK"@, index_page)
    } else {
        spec_compose("HTTP/1.1 404 NOT FOUND"@, not_found_page)
    }
}

/// Answer one request line: classify it, pick the page its file name
/// selects, and frame the response.
pub fn handle_request(request_line: &String, index_page: &String, not_found_page: &String) -> (r:
    String)
    requires
        byte_len(index_page@) <= usize::MAX,
        byte_len(not_found_page@) <= usize::MAX,
    ensures
        r@ == spec_response(request_line@, index_page@, not_found_page@),
{
    let (status_line, filename) = get_status_file_name(request_line);
    proof {
        reveal_strlit("index.html");
        reveal_strlit("404.html");
        assert("404.html"@.len() == 8 && "index.html"@.len() == 10);
        assert("404.html"@ != "index.html"@);
    }
    let index_name: String = String::from_str("index.html");
    let contents = if filename == index_name {
        index_page
    } else {
        not_found_page
    };
    compose_response(&status_line, contents)
}

} // verus!
