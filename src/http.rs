use vstd::prelude::*;
use vstd::utf8::{decode_utf8, encode_utf8, valid_utf8};
use crate::json::{escape_json, escape_spec};
use crate::text::{
    chars_of,
    decimal,
    decimal_string,
    is_space,
    is_space_spec,
    push_text,
    same_text,
    string_of,
    text_of,
};

verus! {

/// Most bytes of a request that are read from a connection.
pub const READ_WINDOW: usize = 8192;

/// What `String::from_utf8_lossy` makes of a byte string.
pub uninterp spec fn lossy_utf8(b: Seq<u8>) -> Seq<char>;

/// Relies on `String::from_utf8_lossy`: a function of the bytes alone, which
/// decodes valid UTF-8 as it is.
#[verifier::external_body]
fn decode_lossy(b: &[u8]) -> (r: String)
    ensures
        r@ == lossy_utf8(b@),
        valid_utf8(b@) ==> r@ == decode_utf8(b@),
{
    String::from_utf8_lossy(b).into_owned()
}

/// Index of the first newline at or after `i`, or the length of `t`.
pub open spec fn line_end(t: Seq<char>, i: int) -> int
    decreases t.len() - i,
{
    if 0 <= i < t.len() && t[i] != '\n' {
        line_end(t, i + 1)
    } else {
        i
    }
}

/// Index of the first non-space character at or after `i`, or the length.
pub open spec fn skip_space(t: Seq<char>, i: int) -> int
    decreases t.len() - i,
{
    if 0 <= i < t.len() && is_space_spec(t[i]) {
        skip_space(t, i + 1)
    } else {
        i
    }
}

/// Index of the first space character at or after `i`, or the length.
pub open spec fn word_end(t: Seq<char>, i: int) -> int
    decreases t.len() - i,
{
    if 0 <= i < t.len() && !is_space_spec(t[i]) {
        word_end(t, i + 1)
    } else {
        i
    }
}

/// The path of a request: the second whitespace-separated word of its first
/// line, or `/` where that line has fewer than two words.
pub open spec fn request_path_spec(t: Seq<char>) -> Seq<char> {
    let line = t.subrange(0, line_end(t, 0));
    let second = skip_space(line, word_end(line, skip_space(line, 0)));
    if second < line.len() {
        line.subrange(second, word_end(line, second))
    } else {
        "/"@
    }
}

/// Length of the first line of `cs`, without its newline.
fn first_line(cs: &Vec<char>) -> (r: usize)
    ensures
        r == line_end(cs@, 0),
        r <= cs@.len(),
{
    let mut i: usize = 0;
    while i < cs.len() && cs[i] != '\n'
        invariant
            i <= cs@.len(),
            line_end(cs@, 0) == line_end(cs@, i as int),
        decreases cs.len() - i,
    {
        i = i + 1;
    }
    i
}

/// Index past the spaces that start at `from`.
fn skip_spaces(t: &Vec<char>, from: usize) -> (r: usize)
    requires
        from <= t@.len(),
    ensures
        r == skip_space(t@, from as int),
        from <= r <= t@.len(),
{
    let mut i: usize = from;
    while i < t.len() && is_space(t[i])
        invariant
            from <= i <= t@.len(),
            skip_space(t@, from as int) == skip_space(t@, i as int),
        decreases t.len() - i,
    {
        i = i + 1;
    }
    i
}

/// Index past the word that starts at `from`.
fn skip_word(t: &Vec<char>, from: usize) -> (r: usize)
    requires
        from <= t@.len(),
    ensures
        r == word_end(t@, from as int),
        from <= r <= t@.len(),
{
    let mut i: usize = from;
    while i < t.len() && !is_space(t[i])
        invariant
            from <= i <= t@.len(),
            word_end(t@, from as int) == word_end(t@, i as int),
        decreases t.len() - i,
    {
        i = i + 1;
    }
    i
}

/// The path requested by `text`, the decoded start of a request.
pub fn request_path(text: &str) -> (r: String)
    ensures
        r@ == request_path_spec(text@),
{
    let mut line = chars_of(text);
    let end = first_line(&line);
    line.truncate(end);
    let first = skip_spaces(&line, 0);
    let first_end = skip_word(&line, first);
    let second = skip_spaces(&line, first_end);
    if second < line.len() {
        let second_end = skip_word(&line, second);
        string_of(&line, second, second_end)
    } else {
        "/".to_owned()
    }
}

/// The three answers the gateway gives.
#[derive(Clone, Copy, Debug, PartialEq, Eq, Structural)]
pub enum Route {
    /// `/health` and `/ready`: a plain `ok`.
    Probe,
    /// `/`: a JSON description of the service.
    Service,
    /// Any other path.
    NotFound,
}

/// The route that serves `path`.
pub open spec fn route_spec(path: Seq<char>) -> Route {
    if path == "/health"@ || path == "/ready"@ {
        Route::Probe
    } else if path == "/"@ {
        Route::Service
    } else {
        Route::NotFound
    }
}

/// Picks the route for a request path, by exact match.
pub fn route_for(path: &String) -> (r: Route)
    ensures
        r == route_spec(path@),
{
    if same_text(path, "/health") || same_text(path, "/ready") {
        Route::Probe
    } else if same_text(path, "/") {
        Route::Service
    } else {
        Route::NotFound
    }
}

/// The status line's text for `route`.
pub open spec fn status_spec(route: Route) -> Seq<char> {
    match route {
        Route::NotFound => "404 Not Found"@,
        _ => "200 OK"@,
    }
}

/// The `Content-Type` for `route`.
pub open spec fn content_type_spec(route: Route) -> Seq<char> {
    match route {
        Route::Probe => "text/plain; charset=utf-8"@,
        _ => "application/json; charset=utf-8"@,
    }
}

/// The body that `route` answers with, given the database URL text.
pub open spec fn body_spec(route: Route, database_url: Seq<char>) -> Seq<char> {
    match route {
        Route::Probe => "ok\n"@,
        Route::Service => "{\"service\":\"zeroclaw\",\"status\":\"ok\",\"database_url\":\""@
            + escape_spec(database_url) + "\"}\n"@,
        Route::NotFound => "{\"error\":\"not found\"}\n"@,
    }
}

/// The lines of a response before its `Content-Length` header.
pub open spec fn head_spec(route: Route) -> Seq<char> {
    "HTTP/1.1 "@ + status_spec(route) + "\r\nContent-Type: "@ + content_type_spec(route)
}

/// The whole response for `route`: status line, `Content-Type`,
/// `Content-Length` with the body's length in UTF-8 bytes,
/// `Connection: close`, a blank line, then the body.
pub open spec fn response_spec(route: Route, database_url: Seq<char>) -> Seq<char> {
    let body = body_spec(route, database_url);
    head_spec(route) + "\r\nContent-Length: "@ + decimal(encode_utf8(body).len()) + "\r\nConnection: close\r\n\r\n"@ + body
}

/// The database URL shown, `unset` where there is none.
pub open spec fn database_url_spec(database_url: Option<Seq<char>>) -> Seq<char> {
    match database_url {
        Some(u) => u,
        None => "unset"@,
    }
}

impl Route {
    /// The status of the response, such as `200 OK`.
    pub fn status(&self) -> (r: &'static str)
        ensures
            r@ == status_spec(*self),
    {
        match self {
            Route::NotFound => "404 Not Found",
            _ => "200 OK",
        }
    }

    /// The `Content-Type` of the response.
    pub fn content_type(&self) -> (r: &'static str)
        ensures
            r@ == content_type_spec(*self),
    {
        match self {
            Route::Probe => "text/plain; charset=utf-8",
            _ => "application/json; charset=utf-8",
        }
    }
}

/// The body of the response for `route`.
pub fn response_body(route: Route, database_url: &str) -> (r: String)
    ensures
        r@ == body_spec(route, database_url@),
{
    match route {
        Route::Probe => "ok\n".to_owned(),
        Route::Service => {
            let mut r = "{\"service\":\"zeroclaw\",\"status\":\"ok\",\"database_url\":\"".to_owned();
            let escaped = escape_json(database_url);
            push_text(&mut r, escaped.as_str());
            push_text(&mut r, "\"}\n");
            r
        },
        Route::NotFound => "{\"error\":\"not found\"}\n".to_owned(),
    }
}

/// The full response text for `route`.
pub fn render_response(route: Route, database_url: &str) -> (r: String)
    ensures
        r@ == response_spec(route, database_url@),
{
    let body = response_body(route, database_url);
    let mut r = "HTTP/1.1 ".to_owned();
    push_text(&mut r, route.status());
    push_text(&mut r, "\r\nContent-Type: ");
    push_text(&mut r, route.content_type());
    push_text(&mut r, "\r\nContent-Length: ");
    let length = decimal_string(body.as_str().as_bytes().len());
    push_text(&mut r, length.as_str());
    push_text(&mut r, "\r\nConnection: close\r\n\r\n");
    push_text(&mut r, body.as_str());
    r
}

/// The response to a request whose decoded text is `text`; `database_url`
/// is the value of `DATABASE_URL`, if set.
pub fn respond_to_text(text: &str, database_url: Option<String>) -> (r: String)
    ensures
        r@ == response_spec(
            route_spec(request_path_spec(text@)),
            database_url_spec(text_of(database_url)),
        ),
{
    let path = request_path(text);
    let route = route_for(&path);
    let url = match database_url {
        Some(u) => u,
        None => "unset".to_owned(),
    };
    render_response(route, url.as_str())
}

/// The response to the bytes read from a connection, or `None` when none
/// were read.
pub fn respond(request: &[u8], database_url: Option<String>) -> (r: Option<String>)
    ensures
        r is None <==> request@.len() == 0,
        r matches Some(s) ==> s@ == response_spec(
            route_spec(request_path_spec(lossy_utf8(request@))),
            database_url_spec(text_of(database_url)),
        ),
{
    if request.len() == 0 {
        return None;
    }
    let text = decode_lossy(request);
    Some(respond_to_text(text.as_str(), database_url))
}

/// The probe paths `/health` and `/ready` are answered with `200 OK` and
/// the body `ok` and a newline, whatever the database URL.
pub proof fn lemma_probe_paths_answer_ok(path: Seq<char>, database_url: Seq<char>)
    requires
        path == "/health"@ || path == "/ready"@,
    ensures
        status_spec(route_spec(path)) == "200 OK"@,
        body_spec(route_spec(path), database_url) == "ok\n"@,
{
}

/// Every path other than `/health`, `/ready` and `/` is answered with
/// `404 Not Found` and a JSON error body.
pub proof fn lemma_unknown_paths_not_found(path: Seq<char>, database_url: Seq<char>)
    requires
        path != "/health"@,
        path != "/ready"@,
        path != "/"@,
    ensures
        status_spec(route_spec(path)) == "404 Not Found"@,
        body_spec(route_spec(path), database_url) == "{\"error\":\"not found\"}\n"@,
{
}

/// In every response the body comes last, and the header lines before it
/// end with `Content-Length` giving the body's exact length in bytes.
pub proof fn lemma_content_length_matches_body(route: Route, database_url: Seq<char>)
    ensures
        ({
            let r = response_spec(route, database_url);
            let body = body_spec(route, database_url);
            let split = r.len() - body.len();
            &&& 0 <= split
            &&& r.subrange(split, r.len() as int) == body
            &&& r.subrange(0, split) == head_spec(route) + "\r\nContent-Length: "@ + decimal(
                encode_utf8(body).len(),
            ) + "\r\nConnection: close\r\n\r\n"@
        }),
{
    let r = response_spec(route, database_url);
    let body = body_spec(route, database_url);
    let head = head_spec(route) + "\r\nContent-Length: "@ + decimal(encode_utf8(body).len())
        + "\r\nConnection: close\r\n\r\n"@;
    assert(r == head + body);
    assert(r.subrange(head.len() as int, r.len() as int) == body);
    assert(r.subrange(0, head.len() as int) == head);
}

} // verus!
