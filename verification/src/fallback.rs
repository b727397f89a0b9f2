//! Requests to the base path of a service.
//!
//! A client that only knows the base path of a service is told where to go.

use vstd::prelude::*;

use crate::headers::{ascii_text, header_text, is_visible_byte};
use crate::text::{
    concat2, concat3, contains, frames, has_substring, occurs_at, opt_text, piece_after,
    second_piece, second_piece_stands_between_the_marks, text_is_found_where_it_stands,
};

verus! {

/// The method of a request.
#[derive(Clone, Copy, Debug, PartialEq, Eq, Structural)]
pub enum HttpMethod {
    Get,
    Post,
    Other,
}

/// An answer to a request.
#[derive(Clone, Debug)]
pub struct FallbackResponse {
    pub status: u16,
    /// The name of the one header that is set.
    pub header_name: &'static str,
    pub header_value: String,
    pub body: String,
}

/// The contents of a [`FallbackResponse`].
pub struct ResponseView {
    pub status: u16,
    pub header_name: Seq<char>,
    pub header_value: Seq<char>,
    pub body: Seq<char>,
}

impl View for FallbackResponse {
    type V = ResponseView;

    open spec fn view(&self) -> ResponseView {
        ResponseView {
            status: self.status,
            header_name: self.header_name@,
            header_value: self.header_value@,
            body: self.body@,
        }
    }
}

/// An answer with one header.
pub open spec fn response(
    status: u16,
    header_name: Seq<char>,
    header_value: Seq<char>,
    body: Seq<char>,
) -> ResponseView {
    ResponseView { status, header_name, header_value, body }
}

/// An answer in plain text.
pub open spec fn plain(status: u16, body: Seq<char>) -> ResponseView {
    response(status, "Content-Type"@, "text/plain"@, body)
}

/// The answer to a method that is not served.
pub open spec fn not_allowed() -> ResponseView {
    response(405, "Allow"@, "GET, POST"@, "Only GET and POST methods are allowed"@)
}

/// The path belongs to a service for server-sent events.
pub open spec fn is_sse_path(path: Seq<char>) -> bool {
    has_substring(path, "/sse/proxy/"@)
}

/// The path belongs to a service for streamable HTTP.
pub open spec fn is_stream_path(path: Seq<char>) -> bool {
    !is_sse_path(path) && has_substring(path, "/stream/proxy/"@)
}

/// The service that a path for server-sent events names.
pub open spec fn named_service(path: Seq<char>) -> Option<Seq<char>> {
    second_piece(path, "/sse/proxy/"@)
}

/// The text of a header; none where it is not all visible ASCII.
pub open spec fn readable(bytes: Seq<u8>) -> Seq<char> {
    if forall|i: int| 0 <= i < bytes.len() ==> is_visible_byte(#[trigger] bytes[i]) {
        ascii_text(bytes)
    } else {
        Seq::empty()
    }
}

/// The answer to a request for the events of the service that a path names,
/// where `exists` says whether there is one.
pub open spec fn sse_answer(path: Seq<char>, exists: bool, accept: Option<Seq<u8>>) -> ResponseView {
    match named_service(path) {
        None => plain(400, "SSE error: Invalid SSE path"@),
        Some(id) => if !exists {
            plain(404, "MCP service '"@ + id + "' not found"@)
        } else {
            match accept {
                None => plain(
                    400,
                    "SSE error: Missing Accept header, expected 'text/event-stream'"@,
                ),
                Some(bytes) => if has_substring(readable(bytes), "text/event-stream"@) {
                    response(302, "Location"@, path + "/sse"@, "Redirecting to SSE endpoint"@)
                } else {
                    plain(
                        400,
                        "SSE error: Invalid Accept header, expected 'text/event-stream'"@,
                    )
                },
            }
        },
    }
}

/// The answer to a request.
pub open spec fn fallback_answer(
    method: HttpMethod,
    path: Seq<char>,
    exists: bool,
    accept: Option<Seq<u8>>,
) -> ResponseView {
    if is_sse_path(path) {
        match method {
            HttpMethod::Get => sse_answer(path, exists, accept),
            HttpMethod::Post => response(
                302,
                "Location"@,
                path + "/message"@,
                "Redirecting to message endpoint"@,
            ),
            HttpMethod::Other => not_allowed(),
        }
    } else if is_stream_path(path) {
        match method {
            HttpMethod::Get => response(
                200,
                "Content-Type"@,
                "application/json"@,
                r#"{"jsonrpc":"2.0","result":{"info":"Streamable MCP Server","version":"1.0"}}"#@,
            ),
            HttpMethod::Post => response(
                200,
                "Content-Type"@,
                "application/json"@,
                r#"{"jsonrpc":"2.0","result":{"message":"Stream request received","protocol":"streamable-http"}}"#@,
            ),
            HttpMethod::Other => not_allowed(),
        }
    } else {
        plain(400, "Unknown protocol or path"@)
    }
}

fn answer(
    status: u16,
    header_name: &'static str,
    header_value: &str,
    body: &str,
) -> (r: FallbackResponse)
    ensures
        r@ == response(status, header_name@, header_value@, body@),
{
    FallbackResponse {
        status,
        header_name,
        header_value: header_value.to_owned(),
        body: body.to_owned(),
    }
}

/// The service of which has to be known whether it exists before the request is
/// answered.
pub fn service_to_find(method: HttpMethod, path: &str) -> (r: Option<String>)
    ensures
        opt_text(r) == (if is_sse_path(path@) && method is Get {
            named_service(path@)
        } else {
            None
        }),
{
    if method == HttpMethod::Get && contains(path, "/sse/proxy/") {
        proof {
            reveal_strlit("/sse/proxy/");
        }
        piece_after(path, "/sse/proxy/")
    } else {
        None
    }
}

/// The answer to a request, where `exists` says whether the service to find
/// exists, and `accept` is the value of the request's header for the types that
/// it takes.
pub fn base_path_fallback_handler(
    method: HttpMethod,
    path: &str,
    exists: bool,
    accept: Option<&[u8]>,
) -> (r: FallbackResponse)
    ensures
        r@ == fallback_answer(
            method,
            path@,
            exists,
            match accept {
                Some(bytes) => Some(bytes@),
                None => None,
            },
        ),
{
    if contains(path, "/sse/proxy/") {
        match method {
            HttpMethod::Get => {
                let id: String = match service_to_find(method, path) {
                    Some(id) => id,
                    None => {
                        return answer(
                            400,
                            "Content-Type",
                            "text/plain",
                            "SSE error: Invalid SSE path",
                        );
                    },
                };
                if !exists {
                    let body: String = concat3("MCP service '", id.as_str(), "' not found");
                    return answer(404, "Content-Type", "text/plain", body.as_str());
                }
                match accept {
                    None => answer(
                        400,
                        "Content-Type",
                        "text/plain",
                        "SSE error: Missing Accept header, expected 'text/event-stream'",
                    ),
                    Some(bytes) => {
                        let text: String = match header_text(bytes) {
                            Some(text) => text,
                            None => String::new(),
                        };
                        if contains(text.as_str(), "text/event-stream") {
                            answer(
                                302,
                                "Location",
                                concat2(path, "/sse").as_str(),
                                "Redirecting to SSE endpoint",
                            )
                        } else {
                            answer(
                                400,
                                "Content-Type",
                                "text/plain",
                                "SSE error: Invalid Accept header, expected 'text/event-stream'",
                            )
                        }
                    },
                }
            },
            HttpMethod::Post => answer(
                302,
                "Location",
                concat2(path, "/message").as_str(),
                "Redirecting to message endpoint",
            ),
            HttpMethod::Other => answer(
                405,
                "Allow",
                "GET, POST",
                "Only GET and POST methods are allowed",
            ),
        }
    } else if contains(path, "/stream/proxy/") {
        match method {
            HttpMethod::Get => answer(
                200,
                "Content-Type",
                "application/json",
                r#"{"jsonrpc":"2.0","result":{"info":"Streamable MCP Server","version":"1.0"}}"#,
            ),
            HttpMethod::Post => answer(
                200,
                "Content-Type",
                "application/json",
                r#"{"jsonrpc":"2.0","result":{"message":"Stream request received","protocol":"streamable-http"}}"#,
            ),
            HttpMethod::Other => answer(
                405,
                "Allow",
                "GET, POST",
                "Only GET and POST methods are allowed",
            ),
        }
    } else {
        answer(400, "Content-Type", "text/plain", "Unknown protocol or path")
    }
}

/// A path for server-sent events always names a service, so a request for its
/// events is never answered as if it named none.
pub proof fn sse_path_names_a_service(path: Seq<char>)
    ensures
        is_sse_path(path) <==> named_service(path) is Some,
{
}

/// A client is sent on to the events of a service exactly where the service
/// exists and the client takes events.
pub proof fn redirected_where_events_are_taken(
    path: Seq<char>,
    exists: bool,
    accept: Option<Seq<u8>>,
)
    requires
        is_sse_path(path),
    ensures
        fallback_answer(HttpMethod::Get, path, exists, accept).status == 302 <==> exists
            && accept is Some && has_substring(readable(accept->0), "text/event-stream"@),
{
}

/// A method that is not served is answered alike for both protocols.
pub proof fn other_methods_are_refused(
    path: Seq<char>,
    exists: bool,
    accept: Option<Seq<u8>>,
)
    requires
        is_sse_path(path) || is_stream_path(path),
    ensures
        fallback_answer(HttpMethod::Other, path, exists, accept).status == 405,
{
}

/// A path for server-sent events, or for streamable HTTP, is known by the part
/// that names the protocol, wherever it stands. Where both stand in it, it is one
/// for server-sent events.
pub proof fn protocol_is_read_off_the_path(path: Seq<char>)
    ensures
        is_sse_path(path) <==> exists|head: Seq<char>, tail: Seq<char>|
            path == #[trigger] (head + "/sse/proxy/"@ + tail),
        is_stream_path(path) <==> !is_sse_path(path) && exists|head: Seq<char>, tail: Seq<char>|
            path == #[trigger] (head + "/stream/proxy/"@ + tail),
{
    text_is_found_where_it_stands(path, "/sse/proxy/"@);
    text_is_found_where_it_stands(path, "/stream/proxy/"@);
}

/// The service that a path names is all that stands behind the part for the
/// protocol, up to the next such part where there is one.
pub proof fn service_is_named_in_full(head: Seq<char>, id: Seq<char>, tail: Seq<char>)
    requires
        forall|i: int|
            0 <= i < head.len() ==> !occurs_at(head + "/sse/proxy/"@ + id + tail, "/sse/proxy/"@, i),
        forall|i: int| 0 <= i < id.len() ==> !occurs_at(id + tail, "/sse/proxy/"@, i),
        tail.len() == 0 || "/sse/proxy/"@.is_prefix_of(tail),
    ensures
        named_service(head + "/sse/proxy/"@ + id + tail) == Some(id),
{
    reveal_strlit("/sse/proxy/");
    second_piece_stands_between_the_marks(head, "/sse/proxy/"@, id, tail);
}

/// A client that is sent on is sent to the path that it asked for, whole, with
/// the part for events or for messages behind it.
pub proof fn client_is_sent_on_below_its_path(
    path: Seq<char>,
    found: bool,
    accept: Option<Seq<u8>>,
)
    requires
        is_sse_path(path),
    ensures
        ({
            let get = fallback_answer(HttpMethod::Get, path, found, accept);
            let post = fallback_answer(HttpMethod::Post, path, found, accept);
            &&& get.status == 302 ==> get.header_name == "Location"@ && frames(
                get.header_value,
                path,
                "/sse"@,
                Seq::empty(),
            )
            &&& get.status == 302 ==> get.body == "Redirecting to SSE endpoint"@
            &&& post.body == "Redirecting to message endpoint"@
            &&& post.status == 302 && post.header_name == "Location"@ && frames(
                post.header_value,
                path,
                "/message"@,
                Seq::empty(),
            )
        }),
{
}

/// A request for the events of a service that does not exist is answered with
/// that, and names the whole service, whatever the client takes. Where the
/// service exists and the client takes no events, the request is a bad one.
pub proof fn events_are_refused_with_a_reason(
    path: Seq<char>,
    id: Seq<char>,
    found: bool,
    accept: Option<Seq<u8>>,
)
    requires
        named_service(path) == Some(id),
    ensures
        ({
            let get = fallback_answer(HttpMethod::Get, path, found, accept);
            &&& !found ==> get.status == 404 && frames(
                get.body,
                "MCP service '"@,
                id,
                "' not found"@,
            )
            &&& found && accept is None ==> get.status == 400 && get.body
                == "SSE error: Missing Accept header, expected 'text/event-stream'"@
            &&& found && accept is Some && get.status != 302 ==> get.status == 400 && get.body
                == "SSE error: Invalid Accept header, expected 'text/event-stream'"@
            &&& get.status != 302 ==> get.header_name == "Content-Type"@ && get.header_value
                == "text/plain"@
        }),
{
}

/// A client takes events where its header can be read and names them anywhere.
/// One that holds any byte that cannot be read is taken as empty.
pub proof fn events_are_taken_where_they_are_named(bytes: Seq<u8>)
    ensures
        (forall|i: int| 0 <= i < bytes.len() ==> 32 <= #[trigger] bytes[i] < 127 || bytes[i] == 9)
            ==> readable(bytes).len() == bytes.len() && forall|i: int|
            0 <= i < bytes.len() ==> #[trigger] readable(bytes)[i] as int == bytes[i],
        (exists|i: int|
            0 <= i < bytes.len() && !(32 <= #[trigger] bytes[i] < 127 || bytes[i] == 9))
            ==> readable(bytes).len() == 0,
        has_substring(readable(bytes), "text/event-stream"@) <==> exists|
            head: Seq<char>,
            tail: Seq<char>,
        |
            readable(bytes) == #[trigger] (head + "text/event-stream"@ + tail),
{
    text_is_found_where_it_stands(readable(bytes), "text/event-stream"@);
    if exists|i: int| 0 <= i < bytes.len() && !(32 <= #[trigger] bytes[i] < 127 || bytes[i] == 9) {
        let i = choose|i: int|
            0 <= i < bytes.len() && !(32 <= #[trigger] bytes[i] < 127 || bytes[i] == 9);
        assert(!is_visible_byte(bytes[i]));
    }
}

/// Requests for streamable HTTP are answered at once, whether or not the service
/// exists and whatever the client takes; a path for neither protocol is a bad
/// request by any method.
pub proof fn other_paths_do_not_depend_on_the_service(
    method: HttpMethod,
    path: Seq<char>,
    found: bool,
    accept: Option<Seq<u8>>,
    other_exists: bool,
    other_accept: Option<Seq<u8>>,
)
    requires
        !is_sse_path(path),
    ensures
        fallback_answer(method, path, found, accept) == fallback_answer(
            method,
            path,
            other_exists,
            other_accept,
        ),
        is_stream_path(path) && method !is Other ==> {
            let r = fallback_answer(method, path, found, accept);
            r.status == 200 && r.header_name == "Content-Type"@ && r.header_value
                == "application/json"@ && r.body == if method is Get {
                r#"{"jsonrpc":"2.0","result":{"info":"Streamable MCP Server","version":"1.0"}}"#@
            } else {
                r#"{"jsonrpc":"2.0","result":{"message":"Stream request received","protocol":"streamable-http"}}"#@
            }
        },
        !is_stream_path(path) ==> {
            let r = fallback_answer(method, path, found, accept);
            r.status == 400 && r.body == "Unknown protocol or path"@ && r.header_value
                == "text/plain"@
        },
{
}

/// A method that is not served is told which are.
pub proof fn refused_method_is_told_the_others(
    path: Seq<char>,
    found: bool,
    accept: Option<Seq<u8>>,
)
    requires
        is_sse_path(path) || is_stream_path(path),
    ensures
        ({
            let r = fallback_answer(HttpMethod::Other, path, found, accept);
            r.header_name == "Allow"@ && r.header_value == "GET, POST"@ && r.body
                == "Only GET and POST methods are allowed"@
        }),
{
}

/// Whether a service exists is asked only before its events are sent, and by the
/// name that its path gives.
pub proof fn only_events_need_the_service(method: HttpMethod, path: &str, r: Option<String>)
    requires
        call_ensures(service_to_find, (method, path), r),
    ensures
        r is Some <==> method is Get && is_sse_path(path@),
        r is Some ==> named_service(path@) == Some(r->0@),
{
}

/// A request is answered by its method and its path alone, but for the events of
/// a service. Of those a client is told where they are where the service exists
/// and the client can take them.
pub proof fn answers_send_the_client_on(
    method: HttpMethod,
    path: &str,
    found: bool,
    accept: Option<&[u8]>,
    r: FallbackResponse,
)
    requires
        call_ensures(base_path_fallback_handler, (method, path, found, accept), r),
    ensures
        is_sse_path(path@) && method is Post ==> r.status == 302 && r.header_name@
            == "Location"@ && frames(r.header_value@, path@, "/message"@, Seq::empty()),
        is_sse_path(path@) && method is Get ==> {
            let takes_events = accept is Some && has_substring(
                readable(accept->0@),
                "text/event-stream"@,
            );
            &&& r.status == 302 <==> found && takes_events
            &&& r.status == 404 <==> !found
            &&& found && !takes_events ==> r.status == 400
            &&& r.status == 302 ==> r.header_name@ == "Location"@ && frames(
                r.header_value@,
                path@,
                "/sse"@,
                Seq::empty(),
            )
        },
        is_stream_path(path@) && method !is Other ==> r.status == 200,
        (is_sse_path(path@) || is_stream_path(path@)) && method is Other ==> r.status == 405,
        !is_sse_path(path@) && !is_stream_path(path@) ==> r.status == 400,
{
}

} // verus!
