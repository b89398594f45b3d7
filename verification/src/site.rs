//! The site: its route table, its page handlers and the interceptor that
//! turns every 404 into the error page.

use vstd::prelude::*;
use vstd::string::StringSliceAdditionalSpecFns;
use crate::fields::Fields;
use crate::request::{Request, RequestView};
use crate::response::{
    bare,
    failure_response,
    failure_status,
    file_response,
    html,
    resolve,
    serve_file,
    Failure,
    Response,
    ResponseView,
    StaticFile,
    StaticFileView,
};
use crate::route::{
    lemma_first_route,
    lookup_spec,
    route_matches,
    standard_routes,
    Handler,
    RouteTable,
    RouteView,
};
use crate::status::{status_digits, Status};
use crate::template::{is_complete, parse_spec, render_spec, Piece, RenderError, Template};

verus! {

/// The fields of the index page.
pub open spec fn index_fields() -> Map<Seq<u8>, Seq<u8>> {
    Map::<Seq<u8>, Seq<u8>>::empty().insert(
        "title".spec_bytes(),
        "Index Title".spec_bytes(),
    ).insert("keywords".spec_bytes(), "Index Keywords".spec_bytes()).insert(
        "description".spec_bytes(),
        "Index Description".spec_bytes(),
    ).insert("test".spec_bytes(), "Index Test".spec_bytes())
}

/// The fields of the about page.
pub open spec fn about_fields() -> Map<Seq<u8>, Seq<u8>> {
    Map::<Seq<u8>, Seq<u8>>::empty().insert(
        "title".spec_bytes(),
        "About Title".spec_bytes(),
    ).insert("keywords".spec_bytes(), "About Keywords".spec_bytes()).insert(
        "description".spec_bytes(),
        "About Description".spec_bytes(),
    )
}

/// The fields of the error page for the given status and error text.
pub open spec fn error_fields(status: u16, error: Seq<u8>) -> Map<Seq<u8>, Seq<u8>> {
    Map::<Seq<u8>, Seq<u8>>::empty().insert("error".spec_bytes(), error).insert(
        "status_code".spec_bytes(),
        status_digits(status),
    )
}

/// The names of the fields of the error page.
pub open spec fn error_names() -> Set<Seq<u8>> {
    Set::<Seq<u8>>::empty().insert("error".spec_bytes()).insert("status_code".spec_bytes())
}

/// The error text of the page that answers a 404.
pub open spec fn not_found_text() -> Seq<u8> {
    "Page not found".spec_bytes()
}

/// The pages that have a template.
#[derive(Clone, Copy, Debug, PartialEq, Eq, Structural)]
pub enum Page {
    Index,
    About,
    Error,
}

/// Why a site could not be set up: the page whose template is at fault, and
/// what is wrong with it.
#[derive(Clone, Copy, Debug, PartialEq, Eq, Structural)]
pub struct SiteError {
    pub page: Page,
    pub error: RenderError,
}

/// What a site holds: its routes and the pieces of its three templates.
pub struct SiteView {
    pub routes: Seq<RouteView>,
    pub index: Seq<Piece>,
    pub about: Seq<Piece>,
    pub error: Seq<Piece>,
}

/// The routes are those of the site, and every slot of each template names a
/// field of its page.
pub open spec fn valid_site(site: SiteView) -> bool {
    &&& site.routes == standard_routes()
    &&& is_complete(site.index, index_fields().dom())
    &&& is_complete(site.about, about_fields().dom())
    &&& is_complete(site.error, error_names())
}

/// What is wrong with the template text `src` of a page whose fields are
/// `names`, if anything: it is malformed, or a slot names no field of the
/// page.
pub open spec fn template_fault(src: Seq<u8>, names: Set<Seq<u8>>) -> Option<RenderError> {
    match parse_spec(src) {
        Err(offset) => Some(RenderError::Malformed { offset: offset as usize }),
        Ok(pieces) => if is_complete(pieces, names) {
            None
        } else {
            Some(
                RenderError::MissingField {
                    slot: crate::template::first_missing(pieces, names, 0) as usize,
                },
            )
        },
    }
}

/// The first fault among the three template texts, in the order index,
/// about, error.
pub open spec fn site_fault(index: Seq<u8>, about: Seq<u8>, error: Seq<u8>) -> Option<SiteError> {
    if let Some(fault) = template_fault(index, index_fields().dom()) {
        Some(SiteError { page: Page::Index, error: fault })
    } else if let Some(fault) = template_fault(about, about_fields().dom()) {
        Some(SiteError { page: Page::About, error: fault })
    } else if let Some(fault) = template_fault(error, error_names()) {
        Some(SiteError { page: Page::Error, error: fault })
    } else {
        None
    }
}

/// What a page handler returns for the outcome of rendering its template:
/// the page with status 200, or the failure to render.
pub open spec fn page_outcome(rendered: Result<Seq<u8>, RenderError>) -> Result<
    ResponseView,
    Failure,
> {
    match rendered {
        Ok(body) => Ok(html(200, body)),
        Err(error) => Err(Failure::Render(error)),
    }
}

/// The error response for the given status and error text: the error page
/// with that status, or 500 if the page could not be rendered.
pub open spec fn error_response(site: SiteView, status: u16, error: Seq<u8>) -> ResponseView {
    match render_spec(site.error, error_fields(status, error)) {
        Ok(body) => html(status, body),
        Err(fault) => bare(500),
    }
}

/// What the 404 handler makes of a response: the error response for its
/// status and `Page not found`, with the headers of the response.
pub open spec fn not_found_spec(site: SiteView, response: ResponseView) -> ResponseView {
    ResponseView {
        headers: response.headers,
        ..error_response(site, response.status, not_found_text())
    }
}

/// What the interceptor makes of a response: a 404 goes to the 404 handler,
/// every other response passes unchanged.
pub open spec fn intercepted(site: SiteView, response: ResponseView) -> ResponseView {
    if response.status == 404 {
        not_found_spec(site, response)
    } else {
        response
    }
}

/// What a failure or a response of a handler becomes before the interceptor
/// sees it.
pub open spec fn resolved(outcome: Result<ResponseView, Failure>) -> ResponseView {
    match outcome {
        Ok(response) => response,
        Err(failure) => bare(failure_status(failure)),
    }
}

/// What the static file responder returns for what the file system yielded.
pub open spec fn file_outcome(file: Option<StaticFileView>) -> Result<ResponseView, Failure> {
    match file {
        Some(found) => Ok(file_response(found)),
        None => Err(Failure::FileNotFound),
    }
}

/// What the handler returns. `file` is what the file system yielded for the
/// file behind the route; the page handlers do not look at it.
pub open spec fn handler_outcome(
    site: SiteView,
    handler: Handler,
    file: Option<StaticFileView>,
) -> Result<ResponseView, Failure> {
    match handler {
        Handler::Index => page_outcome(render_spec(site.index, index_fields())),
        Handler::About => page_outcome(render_spec(site.about, about_fields())),
        Handler::Favicon => file_outcome(file),
        Handler::Styles => file_outcome(file),
        Handler::Assets => file_outcome(file),
    }
}

/// What the handler of the route that answers the request returns, or
/// `RouteNotMatched` if no route answers it. `file` is what the file system
/// yielded for the file behind the route, if the route has one.
pub open spec fn outcome_for(
    site: SiteView,
    request: RequestView,
    file: Option<StaticFileView>,
) -> Result<ResponseView, Failure> {
    match lookup_spec(site.routes, request.method, request.path) {
        Some(route) => handler_outcome(site, route.handler, file),
        None => Err(Failure::RouteNotMatched),
    }
}

/// The response to a request: what its handler returned, resolved into a
/// response and passed through the interceptor. The query string does not
/// enter into it.
pub open spec fn response_for(
    site: SiteView,
    request: RequestView,
    file: Option<StaticFileView>,
) -> ResponseView {
    intercepted(site, resolved(outcome_for(site, request, file)))
}

/// What is to be done for a request.
#[derive(Debug, PartialEq, Eq)]
pub enum Step {
    /// The response is ready.
    Respond(Response),
    /// The file at this location is to be read, and `finish` called with it.
    ReadFile(&'static str),
    /// The file or directory at `rest` below the directory `root` is to be
    /// read, and `finish` called with it.
    ReadDirectory { root: &'static str, rest: Vec<u8> },
}

/// What a step holds.
pub enum StepView {
    Respond(ResponseView),
    ReadFile(Seq<char>),
    ReadDirectory { root: Seq<char>, rest: Seq<u8> },
}

impl View for Step {
    type V = StepView;

    open spec fn view(&self) -> StepView {
        match self {
            Step::Respond(response) => StepView::Respond(response@),
            Step::ReadFile(location) => StepView::ReadFile(location@),
            Step::ReadDirectory { root, rest } => StepView::ReadDirectory {
                root: root@,
                rest: rest@,
            },
        }
    }
}

/// The step for a request: the response where no file is needed for it, and
/// else the file to read. For the assets directory `rest` is the path
/// without the route's own.
pub open spec fn plan_spec(site: SiteView, request: RequestView) -> StepView {
    match lookup_spec(site.routes, request.method, request.path) {
        None => StepView::Respond(response_for(site, request, None)),
        Some(route) => match route.handler {
            Handler::Index => StepView::Respond(response_for(site, request, None)),
            Handler::About => StepView::Respond(response_for(site, request, None)),
            Handler::Favicon => StepView::ReadFile("./files/favicon.ico"@),
            Handler::Styles => StepView::ReadFile("./files/styles.css"@),
            Handler::Assets => StepView::ReadDirectory {
                root: "./files/assets"@,
                rest: request.path.subrange(route.path.len() as int, request.path.len() as int),
            },
        },
    }
}

/// The template of a page.
pub open spec fn template_of(site: SiteView, page: Page) -> Seq<Piece> {
    match page {
        Page::Index => site.index,
        Page::About => site.about,
        Page::Error => site.error,
    }
}

/// What a handler returned, with the response by its view.
pub open spec fn outcome_view(outcome: Result<Response, Failure>) -> Result<ResponseView, Failure> {
    match outcome {
        Ok(response) => Ok(response@),
        Err(failure) => Err(failure),
    }
}

/// What the file system yielded, with the file by its view.
pub open spec fn file_view(file: Option<StaticFile>) -> Option<StaticFileView> {
    match file {
        Some(found) => Some(found@),
        None => None,
    }
}

/// The fields of the index page.
pub fn index_page() -> (fields: Fields)
    ensures
        fields@ == index_fields(),
{
    let mut fields = Fields::new();
    fields.insert("title", "Index Title");
    fields.insert("keywords", "Index Keywords");
    fields.insert("description", "Index Description");
    fields.insert("test", "Index Test");
    fields
}

/// The fields of the about page.
pub fn about_page() -> (fields: Fields)
    ensures
        fields@ == about_fields(),
{
    let mut fields = Fields::new();
    fields.insert("title", "About Title");
    fields.insert("keywords", "About Keywords");
    fields.insert("description", "About Description");
    fields
}

/// The fields of the error page for the given status and error text.
pub fn error_page(status: Status, error: &str) -> (fields: Fields)
    ensures
        fields@ == error_fields(status@, error.spec_bytes()),
{
    let mut fields = Fields::new();
    fields.insert("error", error);
    let code = status.as_text();
    fields.insert("status_code", code.as_str());
    fields
}

/// The fields of the error page have the same names whatever the status and
/// the error text.
pub proof fn lemma_error_names(status: u16, error: Seq<u8>)
    ensures
        error_fields(status, error).dom() == error_names(),
{
    assert(error_fields(status, error).dom() =~= error_names());
}

/// What a page handler returns for the outcome of rendering its template.
pub fn page_response(rendered: Result<Vec<u8>, RenderError>) -> (outcome: Result<
    Response,
    Failure,
>)
    ensures
        match rendered {
            Ok(body) => outcome_view(outcome) == page_outcome(Ok(body@)),
            Err(error) => outcome_view(outcome) == page_outcome(Err(error)),
        },
{
    match rendered {
        Ok(body) => Ok(Response::page(Status::ok(), body)),
        Err(error) => Err(Failure::Render(error)),
    }
}

/// Parses the template text of a page and checks that each slot names one
/// of the page's fields.
fn load(src: &[u8], fields: &Fields) -> (loaded: Result<Template, RenderError>)
    ensures
        match loaded {
            Ok(template) => template_fault(src@, fields@.dom()) is None && parse_spec(src@) == Ok::<
                Seq<Piece>,
                int,
            >(template@),
            Err(error) => template_fault(src@, fields@.dom()) == Some(error),
        },
{
    match Template::parse(src) {
        Err(error) => Err(error),
        Ok(template) => match template.validate(fields) {
            Err(error) => Err(error),
            Ok(_) => Ok(template),
        },
    }
}

/// A site: the route table and the templates of the index page, the about
/// page and the error page.
#[derive(Debug)]
pub struct Site {
    routes: RouteTable,
    index: Template,
    about: Template,
    error: Template,
}

impl View for Site {
    type V = SiteView;

    closed spec fn view(&self) -> SiteView {
        SiteView {
            routes: self.routes@,
            index: self.index@,
            about: self.about@,
            error: self.error@,
        }
    }
}

impl Site {
    /// What holds of every site: see `valid_site`.
    #[verifier::type_invariant]
    pub open spec fn valid(self) -> bool {
        valid_site(self@)
    }

    /// Sets up the site from the template texts of its three pages.
    ///
    /// Fails on the first template, in the order index, about, error, that
    /// is malformed or has a slot that names no field of its page.
    pub fn new(index: &[u8], about: &[u8], error: &[u8]) -> (site: Result<Site, SiteError>)
        ensures
            match site {
                Ok(site) => {
                    &&& site_fault(index@, about@, error@) is None
                    &&& valid_site(site@)
                    &&& parse_spec(index@) == Ok::<Seq<Piece>, int>(site@.index)
                    &&& parse_spec(about@) == Ok::<Seq<Piece>, int>(site@.about)
                    &&& parse_spec(error@) == Ok::<Seq<Piece>, int>(site@.error)
                },
                Err(fault) => site_fault(index@, about@, error@) == Some(fault),
            },
    {
        let index = match load(index, &index_page()) {
            Ok(template) => template,
            Err(error) => {
                return Err(SiteError { page: Page::Index, error });
            },
        };
        let about = match load(about, &about_page()) {
            Ok(template) => template,
            Err(error) => {
                return Err(SiteError { page: Page::About, error });
            },
        };
        proof {
            lemma_error_names(404, not_found_text());
        }
        let error = match load(error, &error_page(Status::not_found(), "Page not found")) {
            Ok(template) => template,
            Err(error) => {
                return Err(SiteError { page: Page::Error, error });
            },
        };
        Ok(Site { routes: RouteTable::standard(), index, about, error })
    }

    /// Renders the template of `page` with `fields`.
    ///
    /// Fails exactly when a slot of the template names a field that `fields`
    /// does not hold; the error gives the index of the first such piece.
    pub fn render(&self, page: Page, fields: &Fields) -> (rendered: Result<Vec<u8>, RenderError>)
        ensures
            match rendered {
                Ok(bytes) => render_spec(template_of(self@, page), fields@) == Ok::<
                    Seq<u8>,
                    RenderError,
                >(bytes@),
                Err(error) => render_spec(template_of(self@, page), fields@) == Err::<
                    Seq<u8>,
                    RenderError,
                >(error),
            },
    {
        match page {
            Page::Index => self.index.render(fields),
            Page::About => self.about.render(fields),
            Page::Error => self.error.render(fields),
        }
    }

    /// Answers a request for the index page: 200 with the rendered page. The
    /// query string is accepted and not looked at.
    pub fn index(&self, _query: &str) -> (outcome: Result<Response, Failure>)
        ensures
            outcome_view(outcome) == handler_outcome(self@, Handler::Index, None),
            outcome is Ok,
    {
        proof {
            use_type_invariant(self);
        }
        page_response(self.render(Page::Index, &index_page()))
    }

    /// Answers a request for the about page: 200 with the rendered page. The
    /// query string is accepted and not looked at.
    pub fn about(&self, _query: &str) -> (outcome: Result<Response, Failure>)
        ensures
            outcome_view(outcome) == handler_outcome(self@, Handler::About, None),
            outcome is Ok,
    {
        proof {
            use_type_invariant(self);
        }
        page_response(self.render(Page::About, &about_page()))
    }

    /// The error response for the status of `response` and the error text
    /// `error`: the rendered error page with that status.
    pub fn get_error_response(&self, response: &Response, error: &str) -> (page: Response)
        ensures
            page@ == error_response(self@, response@.status, error.spec_bytes()),
            page@.status == response@.status,
    {
        proof {
            use_type_invariant(self);
            lemma_error_names(response@.status, error.spec_bytes());
        }
        match self.render(Page::Error, &error_page(response.status, error)) {
            Ok(body) => Response::page(response.status, body),
            Err(fault) => failure_response(Failure::Render(fault)),
        }
    }

    /// Handles a 404: the body of `response` gives way to the error page for
    /// `Page not found`; its status and its headers stay.
    pub fn not_found(&self, response: Response) -> (page: Response)
        ensures
            page@ == not_found_spec(self@, response@),
            page@.status == response@.status,
            page@.headers == response@.headers,
    {
        let page = self.get_error_response(&response, "Page not found");
        Response {
            status: page.status,
            content_type: page.content_type,
            headers: response.headers,
            body: page.body,
        }
    }

    /// The interceptor: a 404 goes to `not_found`, every other response
    /// passes unchanged.
    pub fn error_handlers(&self, response: Response) -> (out: Response)
        ensures
            out@ == intercepted(self@, response@),
            response@.status != 404 ==> out == response,
            out@.status == response@.status,
            out@.headers == response@.headers,
    {
        if response.status.code() == 404 {
            self.not_found(response)
        } else {
            response
        }
    }

    /// Decides what is to be done for a request: respond at once, or read a
    /// file first.
    pub fn plan(&self, request: &Request) -> (step: Step)
        ensures
            step@ == plan_spec(self@, request@),
    {
        let method = request.method.as_str();
        let path = request.path.as_str();
        let query = request.query.as_str();
        match self.routes.lookup(method, path) {
            None => Step::Respond(
                self.error_handlers(resolve(Err(Failure::RouteNotMatched))),
            ),
            Some(route) => match route.handler {
                Handler::Index => Step::Respond(self.error_handlers(resolve(self.index(query)))),
                Handler::About => Step::Respond(self.error_handlers(resolve(self.about(query)))),
                Handler::Favicon => Step::ReadFile("./files/favicon.ico"),
                Handler::Styles => Step::ReadFile("./files/styles.css"),
                Handler::Assets => {
                    let bytes = path.as_bytes();
                    let mount = route.path.as_bytes();
                    proof {
                        lemma_first_route(self@.routes, request@.method, request@.path, 0);
                        assert(route_matches(route@, request@.method, request@.path));
                    }
                    let rest = vstd::slice::slice_to_vec(
                        vstd::slice::slice_subrange(bytes, mount.len(), bytes.len()),
                    );
                    Step::ReadDirectory { root: "./files/assets", rest }
                },
            },
        }
    }

    /// Answers a request whose route has a file behind it, with what the
    /// file system yielded for it: 200 with the file, or the error page with
    /// 404 if there is none.
    pub fn finish(&self, file: Option<StaticFile>) -> (response: Response)
        ensures
            response@ == intercepted(self@, resolved(file_outcome(file_view(file)))),
    {
        self.error_handlers(resolve(serve_file(file)))
    }

    /// Hands a request to the handler of the first route that answers it.
    /// `file` is what the file system yielded for the file behind the route,
    /// if the route has one.
    ///
    /// Fails with `RouteNotMatched` if no route answers the request, and
    /// with `FileNotFound` if the route has a file behind it and `file` is
    /// none.
    pub fn dispatch(&self, request: &Request, file: Option<StaticFile>) -> (outcome: Result<
        Response,
        Failure,
    >)
        ensures
            outcome_view(outcome) == outcome_for(self@, request@, file_view(file)),
    {
        match self.routes.lookup(request.method.as_str(), request.path.as_str()) {
            None => Err(Failure::RouteNotMatched),
            Some(route) => match route.handler {
                Handler::Index => self.index(request.query.as_str()),
                Handler::About => self.about(request.query.as_str()),
                Handler::Favicon => serve_file(file),
                Handler::Styles => serve_file(file),
                Handler::Assets => serve_file(file),
            },
        }
    }

    /// Answers a request. `file` is what the file system yielded for the
    /// file behind the route, if the route has one.
    pub fn respond(&self, request: &Request, file: Option<StaticFile>) -> (response: Response)
        ensures
            response@ == response_for(self@, request@, file_view(file)),
    {
        self.error_handlers(resolve(self.dispatch(request, file)))
    }
}

} // verus!
