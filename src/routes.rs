use vstd::prelude::*;
use vstd::utf8::encode_utf8;

verus! {

/// The method of a request to the local interface.
#[derive(Clone, Copy, Debug, PartialEq, Eq, Structural)]
pub enum Method {
    Get,
    Post,
    Other,
}

/// The content type a response declares.
#[derive(Clone, Copy, Debug, PartialEq, Eq, Structural)]
pub enum ContentType {
    Html,
    JavaScript,
    PlainText,
    /// The response declares none.
    Unspecified,
}

impl ContentType {
    /// The header value, empty where the response declares none.
    pub fn as_str(&self) -> (r: &'static str)
        ensures
            *self == ContentType::Html ==> r@ == "text/html"@,
            *self == ContentType::JavaScript ==> r@ == "application/javascript"@,
            *self == ContentType::PlainText ==> r@ == "text/plain"@,
            *self == ContentType::Unspecified ==> r@ == ""@,
    {
        match self {
            ContentType::Html => "text/html",
            ContentType::JavaScript => "application/javascript",
            ContentType::PlainText => "text/plain",
            ContentType::Unspecified => "",
        }
    }
}

/// What a request to the local interface asks for.
#[derive(Clone, Copy, Debug, PartialEq, Eq, Structural)]
pub enum Route {
    /// GET of the content document.
    Index,
    /// GET of the script.
    Script,
    /// POST of a message to send to the kernel.
    SubmitMessage,
    /// Anything else.
    NotFound,
}

/// A response of the local interface.
pub struct Response {
    pub status: u16,
    pub content_type: ContentType,
    pub body: Vec<u8>,
}

/// The static content that the interface serves.
pub struct StaticAssets {
    /// The content document, served at `/`.
    pub index: Vec<u8>,
    /// Where the script is served, such as `/main.js`.
    pub script_path: String,
    /// The script.
    pub script: Vec<u8>,
}

/// The bytes of `/`.
pub open spec fn index_path() -> Seq<u8> {
    seq![47u8]
}

/// The bytes of `/message`.
pub open spec fn message_path() -> Seq<u8> {
    seq![47u8, 109u8, 101u8, 115u8, 115u8, 97u8, 103u8, 101u8]
}

/// The bytes of `Not Found`.
pub open spec fn not_found_text() -> Seq<u8> {
    seq![78u8, 111u8, 116u8, 32u8, 70u8, 111u8, 117u8, 110u8, 100u8]
}

/// The bytes of `Internal Server Error`.
pub open spec fn server_error_text() -> Seq<u8> {
    seq![
        73u8, 110u8, 116u8, 101u8, 114u8, 110u8, 97u8, 108u8, 32u8, 83u8, 101u8, 114u8, 118u8,
        101u8, 114u8, 32u8, 69u8, 114u8, 114u8, 111u8, 114u8,
    ]
}

/// The route of a request with method `m` and path bytes `path`, where the
/// script is served at `script_path`.
pub open spec fn route_of(script_path: Seq<u8>, m: Method, path: Seq<u8>) -> Route {
    if m == Method::Post && path == message_path() {
        Route::SubmitMessage
    } else if m == Method::Get && path == index_path() {
        Route::Index
    } else if m == Method::Get && path == script_path {
        Route::Script
    } else {
        Route::NotFound
    }
}

impl Response {
    /// Status, content type and body, as plain values.
    pub open spec fn view_parts(&self) -> (u16, ContentType, Seq<u8>) {
        (self.status, self.content_type, self.body@)
    }

    /// An empty response with status 200.
    pub fn ok_empty() -> (r: Response)
        ensures
            r.view_parts() == (200u16, ContentType::Unspecified, Seq::<u8>::empty()),
    {
        Response { status: 200, content_type: ContentType::Unspecified, body: Vec::new() }
    }

    /// The response to a request that failed inside the interface.
    pub fn server_error() -> (r: Response)
        ensures
            r.view_parts() == (500u16, ContentType::Unspecified, server_error_text()),
    {
        let body: Vec<u8> = vec![
            73u8, 110u8, 116u8, 101u8, 114u8, 110u8, 97u8, 108u8, 32u8, 83u8, 101u8, 114u8, 118u8,
            101u8, 114u8, 32u8, 69u8, 114u8, 114u8, 111u8, 114u8,
        ];
        assert(body@ =~= server_error_text());
        Response { status: 500, content_type: ContentType::Unspecified, body }
    }

    /// The response to a request that no route matches.
    pub fn not_found() -> (r: Response)
        ensures
            r.view_parts() == (404u16, ContentType::PlainText, not_found_text()),
    {
        let body: Vec<u8> = vec![78u8, 111u8, 116u8, 32u8, 70u8, 111u8, 117u8, 110u8, 100u8];
        assert(body@ =~= not_found_text());
        Response { status: 404, content_type: ContentType::PlainText, body }
    }
}

/// Whether two byte strings are equal.
pub fn bytes_equal(a: &[u8], b: &[u8]) -> (r: bool)
    ensures
        r == (a@ == b@),
{
    if a.len() != b.len() {
        return false;
    }
    let mut i: usize = 0;
    while i < a.len()
        invariant
            a@.len() == b@.len(),
            i <= a@.len(),
            a@.subrange(0, i as int) == b@.subrange(0, i as int),
        decreases a@.len() - i,
    {
        if a[i] != b[i] {
            assert(a@.subrange(0, i as int + 1)[i as int] != b@.subrange(0, i as int + 1)[i as int]);
            return false;
        }
        assert(a@.subrange(0, i as int + 1) =~= a@.subrange(0, i as int).push(a@[i as int]));
        assert(b@.subrange(0, i as int + 1) =~= b@.subrange(0, i as int).push(b@[i as int]));
        i = i + 1;
    }
    assert(a@ =~= a@.subrange(0, i as int));
    assert(b@ =~= b@.subrange(0, i as int));
    true
}

/// A copy of `v`.
pub fn copy_bytes(v: &Vec<u8>) -> (r: Vec<u8>)
    ensures
        r@ == v@,
{
    let mut out: Vec<u8> = Vec::new();
    let mut i: usize = 0;
    while i < v.len()
        invariant
            i <= v@.len(),
            out@ == v@.subrange(0, i as int),
        decreases v@.len() - i,
    {
        out.push(v[i]);
        assert(out@ =~= v@.subrange(0, i as int + 1));
        i = i + 1;
    }
    assert(out@ =~= v@);
    out
}

impl StaticAssets {
    /// The route of a request with method `m` to `path`.
    pub fn route(&self, m: Method, path: &str) -> (r: Route)
        ensures
            r == route_of(encode_utf8(self.script_path@), m, encode_utf8(path@)),
    {
        let p = path.as_bytes();
        let message: Vec<u8> = vec![47u8, 109u8, 101u8, 115u8, 115u8, 97u8, 103u8, 101u8];
        assert(message@ =~= message_path());
        let root: Vec<u8> = vec![47u8];
        assert(root@ =~= index_path());
        if m == Method::Post && bytes_equal(p, message.as_slice()) {
            Route::SubmitMessage
        } else if m == Method::Get && bytes_equal(p, root.as_slice()) {
            Route::Index
        } else if m == Method::Get && bytes_equal(p, self.script_path.as_str().as_bytes()) {
            Route::Script
        } else {
            Route::NotFound
        }
    }
}

} // verus!
