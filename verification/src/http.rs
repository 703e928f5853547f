//! The record's one web route: the avatar image.

use crate::bytes::bytes_eq;
use crate::text::duplicate_bytes;
use crate::types::State;
use vstd::prelude::*;
use vstd::string::*;
use vstd::utf8::encode_utf8;

verus! {

/// The byte that parts an address into pieces.
pub const SLASH: u8 = 0x2f;

/// The bytes of `avatar`, the second piece of the one address that is served.
pub const AVATAR: [u8; 6] = [0x61, 0x76, 0x61, 0x74, 0x61, 0x72];

/// The page that answers every other address.
pub const NOT_FOUND_PAGE: &'static str =
    "<html> <head> <meta charset=UTF-8> <link href='//fonts.googleapis.com/css?family=Lato:100' rel='stylesheet' type='text/css'> <style> body { margin: 0; padding: 0; width: 100%; height: 100%; color: #B0BEC5; display: table; font-weight: 100; font-family: 'Lato'; } .container { text-align: center; display: table-cell; vertical-align: middle; } .content { text-align: center; display: inline-block; } .title { font-size: 42px; margin-bottom: 40px; } </style> </head> <body> <div class=container> <div class=content> <div class=title>404 NOT FOUND</div> </div> </div> </body> </html>";

/// What is appended to an avatar's media type.
pub const CHARSET_SUFFIX: &'static str = ";charset=utf-8";

/// A request as the gateway hands it on.
#[derive(Clone, Debug)]
pub struct HttpRequest {
    pub method: String,
    pub url: String,
    pub headers: Vec<(String, String)>,
    pub body: Vec<u8>,
}

/// An answer for the gateway: status, headers and body.
#[derive(Clone, Debug)]
pub struct HttpResponse {
    pub status_code: u16,
    pub headers: Vec<(String, String)>,
    pub body: Vec<u8>,
}

/// What an [`HttpResponse`] holds.
pub struct HttpResponseView {
    pub status_code: u16,
    pub headers: Seq<(Seq<char>, Seq<char>)>,
    pub body: Seq<u8>,
}

impl View for HttpResponse {
    type V = HttpResponseView;

    open spec fn view(&self) -> HttpResponseView {
        HttpResponseView {
            status_code: self.status_code,
            headers: self.headers@.map_values(|h: (String, String)| (h.0@, h.1@)),
            body: self.body@,
        }
    }
}

/// The answer that carries an image of the given media type.
pub open spec fn image_response(image_data: Seq<u8>, image_type: Seq<char>) -> HttpResponseView {
    HttpResponseView {
        status_code: 200,
        headers: seq![
            ("Content-Type"@, image_type + CHARSET_SUFFIX@),
            ("Cache-Control"@, "max-age=680400"@),
        ],
        body: image_data,
    }
}

/// The answer to an address that is not served.
pub open spec fn not_found_response() -> HttpResponseView {
    HttpResponseView {
        status_code: 404,
        headers: seq![("Content-Type"@, "text/html"@)],
        body: encode_utf8(NOT_FOUND_PAGE@),
    }
}

/// An address without the one slash that may close it.
pub open spec fn without_closing_slash(url: Seq<u8>) -> Seq<u8> {
    if url.len() > 0 && url.last() == SLASH {
        url.drop_last()
    } else {
        url
    }
}

/// The slashes of `path` stand at `first` and `second`, and nowhere else.
pub open spec fn slashes_at(path: Seq<u8>, first: int, second: int) -> bool {
    &&& 0 <= first < second < path.len()
    &&& forall|j: int| 0 <= j < path.len() ==> (path[j] == SLASH <==> (j == first || j == second))
}

/// The address has three pieces, parted by slashes, one closing slash not
/// counted, and the second piece is `avatar`.
pub open spec fn is_avatar_route(url: Seq<u8>) -> bool {
    let path = without_closing_slash(url);
    exists|first: int, second: int| #[trigger]
        slashes_at(path, first, second) && path.subrange(first + 1, second) == AVATAR@
}

/// The place of the first slash of `path` from `from` on and before `end`;
/// `end` where there is none.
fn next_slash(path: &[u8], from: usize, end: usize) -> (at: usize)
    requires
        from <= end <= path@.len(),
    ensures
        from <= at <= end,
        forall|j: int| from <= j < at ==> path@[j] != SLASH,
        at < end ==> path@[at as int] == SLASH,
{
    let mut at = from;
    while at < end && path[at] != SLASH
        invariant
            from <= at <= end <= path@.len(),
            forall|j: int| from <= j < at ==> path@[j] != SLASH,
        decreases end - at,
    {
        at += 1;
    }
    at
}

/// Tells whether an address is the avatar's.
pub fn avatar_route(url: &[u8]) -> (served: bool)
    ensures
        served == is_avatar_route(url@),
{
    let mut end = url.len();
    if end > 0 && url[end - 1] == SLASH {
        end = end - 1;
    }
    let ghost path = without_closing_slash(url@);
    assert(path =~= url@.take(end as int));
    let first = next_slash(url, 0, end);
    if first == end {
        assert(!is_avatar_route(url@)) by {
            if is_avatar_route(url@) {
                let (a, b): (int, int) = choose|a: int, b: int| #[trigger]
                    slashes_at(path, a, b) && path.subrange(a + 1, b) == AVATAR@;
                assert(path[a] == SLASH);
            }
        }
        return false;
    }
    let second = next_slash(url, first + 1, end);
    if second == end {
        assert(!is_avatar_route(url@)) by {
            if is_avatar_route(url@) {
                let (a, b): (int, int) = choose|a: int, b: int| #[trigger]
                    slashes_at(path, a, b) && path.subrange(a + 1, b) == AVATAR@;
                assert(path[a] == SLASH && path[b] == SLASH);
                assert(path[first as int] == SLASH);
            }
        }
        return false;
    }
    let third = next_slash(url, second + 1, end);
    if third < end {
        assert(!is_avatar_route(url@)) by {
            if is_avatar_route(url@) {
                let (a, b): (int, int) = choose|a: int, b: int| #[trigger]
                    slashes_at(path, a, b) && path.subrange(a + 1, b) == AVATAR@;
                assert(path[first as int] == SLASH);
                assert(path[second as int] == SLASH);
                assert(path[third as int] == SLASH);
            }
        }
        return false;
    }
    assert(slashes_at(path, first as int, second as int));
    let mut piece: Vec<u8> = Vec::new();
    let mut i = first + 1;
    while i < second
        invariant
            first + 1 <= i <= second <= url@.len(),
            piece@ == url@.subrange(first + 1, i as int),
        decreases second - i,
    {
        piece.push(url[i]);
        assert(url@.subrange(first + 1, i as int + 1) =~= url@.subrange(first + 1, i as int).push(
            url@[i as int],
        ));
        i += 1;
    }
    assert(piece@ =~= path.subrange(first + 1, second as int));
    let served = bytes_eq(piece.as_slice(), AVATAR.as_slice());
    assert(served == is_avatar_route(url@)) by {
        if is_avatar_route(url@) {
            let (a, b): (int, int) = choose|a: int, b: int| #[trigger]
                slashes_at(path, a, b) && path.subrange(a + 1, b) == AVATAR@;
            assert(path[first as int] == SLASH);
            assert(path[second as int] == SLASH);
            assert(a == first && b == second);
        }
    }
    served
}

/// The answer that carries an avatar: status 200, the media type with the
/// character set appended, and a caching rule.
pub fn build_202(image_data: Vec<u8>, image_type: String) -> (response: HttpResponse)
    ensures
        response@ == image_response(image_data@, image_type@),
{
    let mut headers: Vec<(String, String)> = Vec::new();
    headers.push(("Content-Type".to_owned(), image_type.concat(CHARSET_SUFFIX)));
    headers.push(("Cache-Control".to_owned(), "max-age=680400".to_owned()));
    let response = HttpResponse { status_code: 200, headers, body: image_data };
    assert(response@.headers =~= image_response(image_data@, image_type@).headers);
    response
}

/// The answer to an address that is not served: status 404 and a fixed page.
pub fn build_404() -> (response: HttpResponse)
    ensures
        response@ == not_found_response(),
{
    let mut headers: Vec<(String, String)> = Vec::new();
    headers.push(("Content-Type".to_owned(), "text/html".to_owned()));
    let response = HttpResponse {
        status_code: 404,
        headers,
        body: NOT_FOUND_PAGE.as_bytes_vec(),
    };
    assert(response@.headers =~= not_found_response().headers);
    response
}

/// Answers a request: the avatar for the avatar's address, the fixed page
/// for any other.
pub fn http_request(state: &State, request: &HttpRequest) -> (response: HttpResponse)
    ensures
        response@ == if is_avatar_route(encode_utf8(request.url@)) {
            image_response(state@.avatar.image_data, state@.avatar.image_type)
        } else {
            not_found_response()
        },
{
    if avatar_route(request.url.as_str().as_bytes()) {
        build_202(duplicate_bytes(&state.avatar.image_data), state.avatar.image_type.clone())
    } else {
        build_404()
    }
}

} // verus!
