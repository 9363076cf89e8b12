//! The pure decisions of the little file server that feeds the pool: which
//! file and status a request line maps to, and which content type a file
//! name implies. The server's reading, writing and sleeping stay with the
//! embedding program; everything here is a function from bytes to values.

use vstd::prelude::*;

verus! {

use vstd::string::StrSliceExecFns;
use vstd::string::StringSliceAdditionalSpecFns;

/// The suffix of `s` after its last `.` (byte 46); the whole of `s` when it
/// has none. In a UTF-8 string byte 46 occurs only as the character `.`,
/// so this is the file-name extension rule applied to the raw bytes.
pub open spec fn last_segment(s: Seq<u8>) -> Seq<u8>
    decreases s.len(),
{
    if s.len() == 0 {
        s
    } else if s.last() == 46u8 {
        Seq::empty()
    } else {
        last_segment(s.drop_last()).push(s.last())
    }
}

/// The content type a file-name extension implies: the three kinds the
/// server knows, and plain text for everything else.
pub open spec fn content_type_spec(seg: Seq<u8>) -> Seq<char> {
    if seg == seq![104u8, 116u8, 109u8, 108u8] {
        "text/html"@
    } else if seg == seq![120u8, 109u8, 108u8] {
        "text/xml"@
    } else if seg == seq![106u8, 115u8, 111u8, 110u8] {
        "application/json"@
    } else {
        "text/plain"@
    }
}

/// Maps a file name to the content type the server labels it with, going
/// by the part of the name after its last dot.
pub fn handle_file_type(filename: &str) -> (r: &str)
    ensures
        r@ == content_type_spec(last_segment(filename.spec_bytes())),
{
    let bytes = filename.as_bytes_vec();
    let n = bytes.len();
    let mut seg_start: usize = 0;
    let mut i: usize = 0;
    while i < n
        invariant
            n == bytes.len(),
            bytes@ == filename.spec_bytes(),
            i <= n,
            seg_start <= i,
            last_segment(bytes@.subrange(0, i as int)) =~= bytes@.subrange(
                seg_start as int,
                i as int,
            ),
        decreases n - i,
    {
        let b = bytes[i];
        proof {
            let pre = bytes@.subrange(0, i as int);
            let post = bytes@.subrange(0, i + 1 as int);
            assert(post.drop_last() =~= pre);
            assert(post.last() == bytes@[i as int]);
        }
        if b == 46u8 {
            seg_start = i + 1;
        }
        i = i + 1;
        assert(last_segment(bytes@.subrange(0, i as int)) =~= bytes@.subrange(
            seg_start as int,
            i as int,
        ));
    }
    let ghost seg = last_segment(filename.spec_bytes());
    proof {
        assert(bytes@.subrange(0, n as int) =~= bytes@);
        assert(seg =~= bytes@.subrange(seg_start as int, n as int));
    }
    let seg_len = n - seg_start;
    if seg_len == 4 && bytes[seg_start] == 104u8 && bytes[seg_start + 1] == 116u8 && bytes[seg_start
        + 2] == 109u8 && bytes[seg_start + 3] == 108u8 {
        assert(seg =~= seq![104u8, 116u8, 109u8, 108u8]);
        "text/html"
    } else if seg_len == 3 && bytes[seg_start] == 120u8 && bytes[seg_start + 1] == 109u8
        && bytes[seg_start + 2] == 108u8 {
        assert(seg =~= seq![120u8, 109u8, 108u8]);
        "text/xml"
    } else if seg_len == 4 && bytes[seg_start] == 106u8 && bytes[seg_start + 1] == 115u8
        && bytes[seg_start + 2] == 111u8 && bytes[seg_start + 3] == 110u8 {
        assert(seg =~= seq![106u8, 115u8, 111u8, 110u8]);
        "application/json"
    } else {
        proof {
            if seg == seq![104u8, 116u8, 109u8, 108u8] {
                assert(seg.len() == 4 && seg[0] == 104u8 && seg[1] == 116u8 && seg[2] == 109u8
                    && seg[3] == 108u8);
            }
            if seg == seq![120u8, 109u8, 108u8] {
                assert(seg.len() == 3 && seg[0] == 120u8 && seg[1] == 109u8 && seg[2] == 108u8);
            }
            if seg == seq![106u8, 115u8, 111u8, 110u8] {
                assert(seg.len() == 4 && seg[0] == 106u8 && seg[1] == 115u8 && seg[2] == 111u8
                    && seg[3] == 110u8);
            }
        }
        "text/plain"
    }
}

/// The requests the server answers, each by serving one file; any other
/// request line is met with the not-found page.
#[derive(Clone, Copy, Debug, PartialEq, Eq, Structural)]
pub enum Route {
    /// `GET /`: the index page.
    Index,
    /// `GET /sleep`: the index of the slow path — the server pauses before
    /// answering, to make queueing behind busy workers observable.
    Sleep,
    /// `GET /xml`: the sample document.
    Xml,
    /// `GET /xml_error`: the sample error document.
    XmlError,
    /// `GET /api`: the sample answer.
    Api,
    /// Anything else.
    NotFound,
}

/// Which route a raw request line selects.
pub open spec fn route_of(line: Seq<u8>) -> Route {
    if line == ("GET / HTTP/1.1").spec_bytes() {
        Route::Index
    } else if line == ("GET /sleep HTTP/1.1").spec_bytes() {
        Route::Sleep
    } else if line == ("GET /xml HTTP/1.1").spec_bytes() {
        Route::Xml
    } else if line == ("GET /xml_error HTTP/1.1").spec_bytes() {
        Route::XmlError
    } else if line == ("GET /api HTTP/1.1").spec_bytes() {
        Route::Api
    } else {
        Route::NotFound
    }
}

/// Byte-for-byte equality of two buffers.
fn bytes_eq(a: &Vec<u8>, b: &Vec<u8>) -> (r: bool)
    ensures
        r <==> a@ == b@,
{
    if a.len() != b.len() {
        return false;
    }
    let n = a.len();
    let mut i: usize = 0;
    while i < n
        invariant
            n == a.len(),
            n == b.len(),
            i <= n,
            forall|k: int| 0 <= k < i ==> a@[k] == b@[k],
        decreases n - i,
    {
        if a[i] != b[i] {
            return false;
        }
        i = i + 1;
    }
    assert(a@ =~= b@);
    true
}

/// Decides which route a request line selects.
pub fn route_for_request(line: &str) -> (r: Route)
    ensures
        r == route_of(line.spec_bytes()),
{
    let lb = line.as_bytes_vec();
    if bytes_eq(&lb, &("GET / HTTP/1.1").as_bytes_vec()) {
        Route::Index
    } else if bytes_eq(&lb, &("GET /sleep HTTP/1.1").as_bytes_vec()) {
        Route::Sleep
    } else if bytes_eq(&lb, &("GET /xml HTTP/1.1").as_bytes_vec()) {
        Route::Xml
    } else if bytes_eq(&lb, &("GET /xml_error HTTP/1.1").as_bytes_vec()) {
        Route::XmlError
    } else if bytes_eq(&lb, &("GET /api HTTP/1.1").as_bytes_vec()) {
        Route::Api
    } else {
        Route::NotFound
    }
}

/// The status line the server answers a route with.
pub open spec fn status_line_of(r: Route) -> Seq<char> {
    if r is NotFound {
        "HTTP/1.1 404 NOT FOUND"@
    } else {
        "HTTP/1.1 200 OK"@
    }
}

/// The file the server serves for a route.
pub open spec fn target_file_of(r: Route) -> Seq<char> {
    match r {
        Route::Index => "index.html"@,
        Route::Sleep => "response.json"@,
        Route::Xml => "index.xml"@,
        Route::XmlError => "error.xml"@,
        Route::Api => "response.json"@,
        Route::NotFound => "404.html"@,
    }
}

/// The status line for a route.
pub fn status_line(r: Route) -> (s: &'static str)
    ensures
        s@ == status_line_of(r),
{
    match r {
        Route::NotFound => "HTTP/1.1 404 NOT FOUND",
        _ => "HTTP/1.1 200 OK",
    }
}

/// The file name for a route.
pub fn target_file(r: Route) -> (s: &'static str)
    ensures
        s@ == target_file_of(r),
{
    match r {
        Route::Index => "index.html",
        Route::Sleep => "response.json",
        Route::Xml => "index.xml",
        Route::XmlError => "error.xml",
        Route::Api => "response.json",
        Route::NotFound => "404.html",
    }
}

/// How many seconds the server pauses before answering a route: five on
/// the deliberately slow path, none anywhere else.
pub fn delay_seconds(r: Route) -> (d: u64)
    ensures
        r is Sleep ==> d == 5,
        !(r is Sleep) ==> d == 0,
{
    match r {
        Route::Sleep => 5,
        _ => 0,
    }
}

/// The character for one decimal digit.
pub open spec fn digit_char(d: nat) -> char {
    if d == 0 {
        '0'
    } else if d == 1 {
        '1'
    } else if d == 2 {
        '2'
    } else if d == 3 {
        '3'
    } else if d == 4 {
        '4'
    } else if d == 5 {
        '5'
    } else if d == 6 {
        '6'
    } else if d == 7 {
        '7'
    } else if d == 8 {
        '8'
    } else {
        '9'
    }
}

/// The decimal writing of `n`, most significant digit first, without
/// leading zeroes (a single zero for zero itself).
pub open spec fn decimal_of(n: nat) -> Seq<char>
    decreases n,
{
    if n < 10 {
        seq![digit_char(n)]
    } else {
        decimal_of(n / 10).push(digit_char(n % 10))
    }
}

/// One decimal digit as text.
fn digit_str(d: usize) -> (s: &'static str)
    requires
        d < 10,
    ensures
        s@ == seq![digit_char(d as nat)],
{
    proof {
        reveal_strlit("0");
        reveal_strlit("1");
        reveal_strlit("2");
        reveal_strlit("3");
        reveal_strlit("4");
        reveal_strlit("5");
        reveal_strlit("6");
        reveal_strlit("7");
        reveal_strlit("8");
        reveal_strlit("9");
    }
    let s = match d {
        0 => "0",
        1 => "1",
        2 => "2",
        3 => "3",
        4 => "4",
        5 => "5",
        6 => "6",
        7 => "7",
        8 => "8",
        _ => "9",
    };
    assert(s@ =~= seq![digit_char(d as nat)]);
    s
}

/// Writes a number in decimal, the way the server reports a content
/// length.
pub fn decimal_string(n: usize) -> (s: String)
    ensures
        s@ == decimal_of(n as nat),
    decreases n,
{
    if n < 10 {
        String::from_str(digit_str(n))
    } else {
        let mut s = decimal_string(n / 10);
        s.append(digit_str(n % 10));
        assert(s@ =~= decimal_of(n as nat));
        s
    }
}

/// The response the server sends for one answered request: the status
/// line, the content-type and content-length headers, the authorization
/// header it always attaches, and the file's contents. The length header
/// counts the contents' bytes.
pub open spec fn response_spec(status: Seq<char>, content_type: Seq<char>, contents: &str) -> Seq<
    char,
> {
    status + "\r\nContent-Type: "@ + content_type + "\r\nContent-Length: "@ + decimal_of(
        contents.spec_bytes().len(),
    ) + "\r\nAuthorization: Bearer admin\r\n\r\n"@ + contents@
}

/// Assembles the full response text for one request: headers first, then
/// the served contents.
pub fn build_response(status: &str, content_type: &str, contents: &str) -> (r: String)
    requires
        contents.spec_bytes().len() <= usize::MAX,
    ensures
        r@ == response_spec(status@, content_type@, contents),
{
    let mut r = String::from_str(status);
    r.append("\r\nContent-Type: ");
    r.append(content_type);
    r.append("\r\nContent-Length: ");
    let len = decimal_string(contents.len());
    r.append(len.as_str());
    r.append("\r\nAuthorization: Bearer admin\r\n\r\n");
    r.append(contents);
    assert(r@ =~= response_spec(status@, content_type@, contents));
    r
}

} // verus!
