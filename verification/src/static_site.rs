//! The root site: which methods it answers, which file a request path names,
//! and the response that carries a file.

use crate::decimal::{decimal, to_decimal};
use crate::error::RouteError;
use crate::text::{chars_of, same_text};
use vstd::prelude::*;
use vstd::string::*;

verus! {

/// The methods the root site answers: `GET` and `HEAD`, spelled exactly so.
pub open spec fn is_read_method(method: Seq<char>) -> bool {
    method == "GET"@ || method == "HEAD"@
}

/// Whether the root site answers `method`.
pub fn allows_method(method: &str) -> (allowed: bool)
    ensures
        allowed == is_read_method(method@),
{
    same_text(method, "GET") || same_text(method, "HEAD")
}

/// The file served for a path that names a directory.
pub open spec fn index_file() -> Seq<char> {
    "index.html"@
}

/// The file that a request path names under the static root: the root
/// directory followed by the path as received, and by the index file name
/// where that ends with `/`.
pub open spec fn static_path(root: Seq<char>, path: Seq<char>) -> Seq<char> {
    let joined = root + path;
    if joined.len() > 0 && joined.last() == '/' {
        joined + index_file()
    } else {
        joined
    }
}

/// Builds the file path for a request path under `root`. The path is the
/// URL's path component, without any query string; it is not normalised.
pub fn static_file_path(root: &str, path: &str) -> (file: String)
    ensures
        file@ == static_path(root@, path@),
{
    let mut file = root.to_owned();
    file.append(path);
    let joined = chars_of(file.as_str());
    if joined.len() > 0 && joined[joined.len() - 1] == '/' {
        file.append("index.html");
    }
    file
}

/// A `..` segment starts at position `i` of `path`: two dots with a `/` or
/// an end of the path on either side.
pub open spec fn parent_segment_at(path: Seq<char>, i: int) -> bool {
    &&& 0 <= i
    &&& i + 2 <= path.len()
    &&& path[i] == '.'
    &&& path[i + 1] == '.'
    &&& (i == 0 || path[i - 1] == '/')
    &&& (i + 2 == path.len() || path[i + 2] == '/')
}

/// Some `/`-separated segment of `path` is `..`.
pub open spec fn has_parent_segment(path: Seq<char>) -> bool {
    exists|i: int| parent_segment_at(path, i)
}

/// Whether some `/`-separated segment of `path` is `..`, which would let the
/// file path leave the static root.
pub fn climbs_out(path: &str) -> (climbs: bool)
    ensures
        climbs == has_parent_segment(path@),
{
    let p = chars_of(path);
    let n: usize = p.len();
    if n < 2 {
        return false;
    }
    let mut i: usize = 0;
    while i <= n - 2
        invariant
            2 <= n,
            n == p@.len(),
            p@ == path@,
            forall|j: int| 0 <= j < i ==> !parent_segment_at(path@, j),
        decreases n - i,
    {
        if p[i] == '.' && p[i + 1] == '.' && (i == 0 || p[i - 1] == '/') && (i + 2 == n || p[i + 2]
            == '/') {
            assert(parent_segment_at(path@, i as int));
            return true;
        }
        i += 1;
    }
    false
}

/// One response header.
#[derive(Debug, Clone, PartialEq, Eq)]
pub struct Header {
    pub name: String,
    pub value: String,
}

/// The response that carries a static file.
#[derive(Debug, Clone, PartialEq, Eq)]
pub struct StaticResponse {
    /// The HTTP status code.
    pub status: u16,
    /// The headers, in the order in which they are sent.
    pub headers: Vec<Header>,
    /// The file's bytes.
    pub body: Vec<u8>,
    /// Whether the connection stays open after the response.
    pub keep_alive: bool,
}

/// A static response as plain mathematical values; a header is a pair of
/// name and value.
pub struct StaticResponseView {
    pub status: u16,
    pub headers: Seq<(Seq<char>, Seq<char>)>,
    pub body: Seq<u8>,
    pub keep_alive: bool,
}

impl View for StaticResponse {
    type V = StaticResponseView;

    open spec fn view(&self) -> StaticResponseView {
        StaticResponseView {
            status: self.status,
            headers: Seq::new(
                self.headers@.len(),
                |i: int| (self.headers@[i].name@, self.headers@[i].value@),
            ),
            body: self.body@,
            keep_alive: self.keep_alive,
        }
    }
}

/// The response for a file with the given contents: status 200, the serving
/// software's name, the exact byte count, the content type `text/html`
/// whatever the file is, and a connection that closes afterwards.
pub open spec fn file_response(server: Seq<char>, contents: Seq<u8>) -> StaticResponseView {
    StaticResponseView {
        status: 200,
        headers: seq![
            ("Server"@, server),
            ("Content-Length"@, decimal(contents.len())),
            ("Content-Type"@, "text/html"@),
        ],
        body: contents,
        keep_alive: false,
    }
}

/// What follows an attempt to read the file: its response where the read
/// gave the contents, `NotFound` where it failed for whatever reason.
pub open spec fn served(server: Seq<char>, read: Option<Seq<u8>>) -> Result<
    StaticResponseView,
    RouteError,
> {
    match read {
        Some(contents) => Ok(file_response(server, contents)),
        None => Err(RouteError::NotFound),
    }
}

/// The mathematical reading of the outcome of serving a file.
pub open spec fn served_view(r: Result<StaticResponse, RouteError>) -> Result<
    StaticResponseView,
    RouteError,
> {
    match r {
        Ok(response) => Ok(response@),
        Err(e) => Err(e),
    }
}

/// Turns the outcome of reading the static file into the outcome of the
/// request. `read` is `None` where the file could not be read.
pub fn serve_file(server: &str, read: Option<Vec<u8>>) -> (r: Result<StaticResponse, RouteError>)
    ensures
        served_view(r) == served(
            server@,
            match read {
                Some(contents) => Some(contents@),
                None => None,
            },
        ),
{
    match read {
        None => Err(RouteError::NotFound),
        Some(contents) => {
            let mut headers: Vec<Header> = Vec::new();
            headers.push(Header { name: "Server".to_owned(), value: server.to_owned() });
            headers.push(
                Header { name: "Content-Length".to_owned(), value: to_decimal(contents.len()) },
            );
            headers.push(Header { name: "Content-Type".to_owned(), value: "text/html".to_owned() });
            let response = StaticResponse { status: 200, headers, body: contents, keep_alive: false };
            assert(response@.headers =~= file_response(server@, contents@).headers);
            Ok(response)
        },
    }
}

} // verus!
