//! Responses, the static files that some of them carry, and the failures
//! that are turned into them.

use vstd::prelude::*;
use crate::status::Status;
use crate::template::RenderError;

verus! {

/// An HTTP response: a status, a content type, further headers and a body.
/// An empty content type stands for none. The length of the body is not held
/// apart from it.
#[derive(Clone, Debug, PartialEq, Eq)]
pub struct Response {
    pub status: Status,
    pub content_type: String,
    pub headers: Vec<(String, String)>,
    pub body: Vec<u8>,
}

/// What a response holds.
pub struct ResponseView {
    pub status: u16,
    pub content_type: Seq<char>,
    pub headers: Seq<(Seq<char>, Seq<char>)>,
    pub body: Seq<u8>,
}

/// What a list of headers holds.
pub open spec fn headers_view(headers: Seq<(String, String)>) -> Seq<(Seq<char>, Seq<char>)> {
    headers.map_values(|header: (String, String)| (header.0@, header.1@))
}

impl View for Response {
    type V = ResponseView;

    open spec fn view(&self) -> ResponseView {
        ResponseView {
            status: self.status@,
            content_type: self.content_type@,
            headers: headers_view(self.headers@),
            body: self.body@,
        }
    }
}

/// A file as the file system yields it: its content type and its bytes.
#[derive(Clone, Debug, PartialEq, Eq)]
pub struct StaticFile {
    pub content_type: String,
    pub bytes: Vec<u8>,
}

/// What a static file holds: its content type and its bytes.
pub struct StaticFileView {
    pub content_type: Seq<char>,
    pub bytes: Seq<u8>,
}

impl View for StaticFile {
    type V = StaticFileView;

    open spec fn view(&self) -> StaticFileView {
        StaticFileView { content_type: self.content_type@, bytes: self.bytes@ }
    }
}

/// What a handler may fail with.
#[derive(Clone, Copy, Debug, PartialEq, Eq, Structural)]
pub enum Failure {
    /// A template could not be rendered.
    Render(RenderError),
    /// The file behind a route is absent.
    FileNotFound,
    /// No route matches the request.
    RouteNotMatched,
}

/// The status that a failure is answered with: 500 where a template could
/// not be rendered, 404 otherwise.
pub open spec fn failure_status(failure: Failure) -> u16 {
    match failure {
        Failure::Render(_) => 500,
        Failure::FileNotFound => 404,
        Failure::RouteNotMatched => 404,
    }
}

/// The response with the given status and nothing else.
pub open spec fn bare(status: u16) -> ResponseView {
    ResponseView {
        status,
        content_type: Seq::empty(),
        headers: Seq::empty(),
        body: Seq::empty(),
    }
}

/// The page `body` as a response with the given status.
pub open spec fn html(status: u16, body: Seq<u8>) -> ResponseView {
    ResponseView { status, content_type: "text/html"@, headers: Seq::empty(), body }
}

/// The response that carries a static file.
pub open spec fn file_response(file: StaticFileView) -> ResponseView {
    ResponseView {
        status: 200,
        content_type: file.content_type,
        headers: Seq::empty(),
        body: file.bytes,
    }
}

impl Response {
    /// The response with the given status, no content type, no headers and
    /// an empty body.
    pub fn empty(status: Status) -> (response: Response)
        ensures
            response@ == bare(status@),
    {
        let response = Response {
            status,
            content_type: String::new(),
            headers: Vec::new(),
            body: Vec::new(),
        };
        assert(headers_view(response.headers@) =~= Seq::empty());
        response
    }

    /// The page `body` as a response with the given status and the content
    /// type `text/html`.
    pub fn page(status: Status, body: Vec<u8>) -> (response: Response)
        ensures
            response@ == html(status@, body@),
    {
        let response = Response {
            status,
            content_type: "text/html".to_owned(),
            headers: Vec::new(),
            body,
        };
        assert(headers_view(response.headers@) =~= Seq::empty());
        response
    }
}

/// The response that a failure is turned into before the interceptor sees
/// it: its status and nothing else.
pub fn failure_response(failure: Failure) -> (response: Response)
    ensures
        response@ == bare(failure_status(failure)),
{
    match failure {
        Failure::Render(_) => Response::empty(Status::internal_server_error()),
        Failure::FileNotFound => Response::empty(Status::not_found()),
        Failure::RouteNotMatched => Response::empty(Status::not_found()),
    }
}

/// Turns what a handler returned into a response: its own, or the one for
/// its failure.
pub fn resolve(outcome: Result<Response, Failure>) -> (response: Response)
    ensures
        match outcome {
            Ok(own) => response == own,
            Err(failure) => response@ == bare(failure_status(failure)),
        },
{
    match outcome {
        Ok(own) => own,
        Err(failure) => failure_response(failure),
    }
}

/// Responds with a static file: 200 with its content type and its bytes, or
/// `FileNotFound` if the file system yielded none.
pub fn serve_file(file: Option<StaticFile>) -> (outcome: Result<Response, Failure>)
    ensures
        match file {
            Some(found) => outcome is Ok && outcome->Ok_0@ == file_response(found@),
            None => outcome == Err::<Response, Failure>(Failure::FileNotFound),
        },
{
    match file {
        Some(found) => {
            let response = Response {
                status: Status::ok(),
                content_type: found.content_type,
                headers: Vec::new(),
                body: found.bytes,
            };
            assert(headers_view(response.headers@) =~= Seq::empty());
            Ok(response)
        },
        None => Err(Failure::FileNotFound),
    }
}

} // verus!
