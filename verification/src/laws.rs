//! What holds of every site and every request.

use vstd::prelude::*;
use vstd::string::{is_ascii_spec_bytes, StringSliceAdditionalSpecFns};
use crate::escape::{all_plain, lemma_escape_plain};
use crate::request::RequestView;
use crate::response::{bare, ResponseView, StaticFileView};
use crate::route::{
    first_route,
    handler_for,
    is_below,
    is_routed,
    lemma_first_route,
    lookup_spec,
    route_matches,
    standard_routes,
    Handler,
};
use crate::site::{
    about_fields,
    error_fields,
    file_outcome,
    index_fields,
    intercepted,
    lemma_error_names,
    not_found_spec,
    not_found_text,
    plan_spec,
    resolved,
    response_for,
    valid_site,
    SiteView,
    StepView,
};
use crate::status::status_digits;
use crate::template::{
    fill,
    has_slot,
    is_slot_for,
    lemma_fill_contains,
    lemma_render_complete,
    Piece,
};
use crate::text::{contains, SLASH};

verus! {

/// The page `body` shows `text` if the template has a slot for the field
/// `name`.
pub open spec fn shows(pieces: Seq<Piece>, name: Seq<u8>, body: Seq<u8>, text: Seq<u8>) -> bool {
    has_slot(pieces, name) ==> contains(body, text)
}

/// The route table answers exactly the GET requests for `/`, `/index`,
/// `/about`, `/favicon.ico`, `/styles.css` and the assets directory with
/// what lies below it, each with its own handler.
pub proof fn law_route_table(method: Seq<u8>, path: Seq<u8>)
    ensures
        lookup_spec(standard_routes(), method, path) is Some <==> is_routed(method, path),
        is_routed(method, path) ==> lookup_spec(standard_routes(), method, path)->0.handler
            == handler_for(path),
{
    lemma_route_paths();
    let routes = standard_routes();
    lemma_first_route(routes, method, path, 0);
    if is_below(path, "/assets".spec_bytes()) {
        lemma_below_assets(path);
    }
    if is_routed(method, path) && first_route(routes, method, path, 0) >= routes.len() {
        assert(!route_matches(routes[0], method, path));
        assert(!route_matches(routes[1], method, path));
        assert(!route_matches(routes[2], method, path));
        assert(!route_matches(routes[3], method, path));
        assert(!route_matches(routes[4], method, path));
        assert(!route_matches(routes[5], method, path));
    }
}

/// A GET request for `/` or `/index` is answered with status 200 and the
/// content type `text/html`, whatever the query string and whatever the
/// file system yields. The body holds `Index Title` if the template of the
/// index page has a slot for the title, and likewise the keywords, the
/// description and the test text of the page.
pub proof fn law_index_page(site: SiteView, request: RequestView, file: Option<StaticFileView>)
    requires
        valid_site(site),
        request.method == "GET".spec_bytes(),
        request.path == "/".spec_bytes() || request.path == "/index".spec_bytes(),
    ensures
        response_for(site, request, file).status == 200,
        response_for(site, request, file).content_type == "text/html"@,
        shows(
            site.index,
            "title".spec_bytes(),
            response_for(site, request, file).body,
            "Index Title".spec_bytes(),
        ),
        shows(
            site.index,
            "keywords".spec_bytes(),
            response_for(site, request, file).body,
            "Index Keywords".spec_bytes(),
        ),
        shows(
            site.index,
            "description".spec_bytes(),
            response_for(site, request, file).body,
            "Index Description".spec_bytes(),
        ),
        shows(
            site.index,
            "test".spec_bytes(),
            response_for(site, request, file).body,
            "Index Test".spec_bytes(),
        ),
{
    law_route_table(request.method, request.path);
    lemma_named_paths();
    lemma_render_complete(site.index, index_fields());
    lemma_index_shows(site.index);
}

/// A GET request for `/about` is answered with status 200 and the content
/// type `text/html`, whatever the query string and whatever the file system
/// yields. The body holds `About Title` if the template of the about page
/// has a slot for the title, and likewise the keywords and the description
/// of the page.
pub proof fn law_about_page(site: SiteView, request: RequestView, file: Option<StaticFileView>)
    requires
        valid_site(site),
        request.method == "GET".spec_bytes(),
        request.path == "/about".spec_bytes(),
    ensures
        response_for(site, request, file).status == 200,
        response_for(site, request, file).content_type == "text/html"@,
        shows(
            site.about,
            "title".spec_bytes(),
            response_for(site, request, file).body,
            "About Title".spec_bytes(),
        ),
        shows(
            site.about,
            "keywords".spec_bytes(),
            response_for(site, request, file).body,
            "About Keywords".spec_bytes(),
        ),
        shows(
            site.about,
            "description".spec_bytes(),
            response_for(site, request, file).body,
            "About Description".spec_bytes(),
        ),
{
    law_route_table(request.method, request.path);
    lemma_named_paths();
    lemma_render_complete(site.about, about_fields());
    lemma_about_shows(site.about);
}

/// The page that answers a 404 has status 404 and the content type
/// `text/html`, and keeps the headers of the response that it replaces. Its
/// body holds `Page not found` if the template of the error page has a slot
/// for the error text, and `404` if it has one for the status code.
pub proof fn law_not_found_page(site: SiteView, response: ResponseView)
    requires
        valid_site(site),
        response.status == 404,
    ensures
        intercepted(site, response) == not_found_spec(site, response),
        intercepted(site, response).status == 404,
        intercepted(site, response).content_type == "text/html"@,
        intercepted(site, response).headers == response.headers,
        shows(
            site.error,
            "error".spec_bytes(),
            intercepted(site, response).body,
            "Page not found".spec_bytes(),
        ),
        shows(
            site.error,
            "status_code".spec_bytes(),
            intercepted(site, response).body,
            "404".spec_bytes(),
        ),
{
    lemma_error_names(404, not_found_text());
    lemma_render_complete(site.error, error_fields(404, not_found_text()));
    lemma_not_found_shows(site.error);
}

/// A request that the routes do not answer, whatever its method and its
/// path, is answered with status 404 and the page for it.
pub proof fn law_unrouted_is_not_found(
    site: SiteView,
    request: RequestView,
    file: Option<StaticFileView>,
)
    requires
        valid_site(site),
        !is_routed(request.method, request.path),
    ensures
        response_for(site, request, file) == intercepted(site, bare(404)),
        response_for(site, request, file).status == 404,
        response_for(site, request, file).content_type == "text/html"@,
        shows(
            site.error,
            "error".spec_bytes(),
            response_for(site, request, file).body,
            "Page not found".spec_bytes(),
        ),
        shows(
            site.error,
            "status_code".spec_bytes(),
            response_for(site, request, file).body,
            "404".spec_bytes(),
        ),
{
    law_route_table(request.method, request.path);
    law_not_found_page(site, bare(404));
}

/// A GET request for `/favicon.ico`, for `/styles.css` or for a path in the
/// assets directory is answered with status 200, the content type of the
/// file and its bytes, if the file system yields the file, and with status
/// 404 and the page for it if the file system yields none.
pub proof fn law_static_file(site: SiteView, request: RequestView, file: Option<StaticFileView>)
    requires
        valid_site(site),
        request.method == "GET".spec_bytes(),
        request.path == "/favicon.ico".spec_bytes() || request.path == "/styles.css".spec_bytes()
            || request.path == "/assets".spec_bytes() || is_below(
            request.path,
            "/assets".spec_bytes(),
        ),
    ensures
        match file {
            Some(found) => {
                &&& response_for(site, request, file).status == 200
                &&& response_for(site, request, file).content_type == found.content_type
                &&& response_for(site, request, file).body == found.bytes
            },
            None => {
                &&& response_for(site, request, file).status == 404
                &&& response_for(site, request, file) == intercepted(site, bare(404))
            },
        },
{
    law_route_table(request.method, request.path);
    lemma_named_paths();
    if request.path == "/assets".spec_bytes() || is_below(request.path, "/assets".spec_bytes()) {
        lemma_assets_paths(request.path);
    }
    law_not_found_page(site, bare(404));
}

/// Every 404 is answered with the same page: the status, the content type
/// and the body of what the interceptor makes of a 404 do not depend on the
/// response that it replaces.
pub proof fn law_not_found_is_uniform(site: SiteView, one: ResponseView, other: ResponseView)
    requires
        one.status == 404,
        other.status == 404,
    ensures
        intercepted(site, one).status == intercepted(site, other).status,
        intercepted(site, one).content_type == intercepted(site, other).content_type,
        intercepted(site, one).body == intercepted(site, other).body,
{
}

/// The interceptor leaves a response with status 200 as it is, and so every
/// response whose status is not 404.
pub proof fn law_interceptor_passes(site: SiteView, response: ResponseView)
    requires
        response.status != 404,
    ensures
        intercepted(site, response) == response,
        intercepted(site, response).body == response.body,
{
}

/// The same request, with the same yield of the file system, is answered
/// with the same response, byte for byte: nothing else enters into it.
pub proof fn law_same_request_same_response(
    site: SiteView,
    request: RequestView,
    file: Option<StaticFileView>,
    again: RequestView,
    again_file: Option<StaticFileView>,
)
    requires
        request == again,
        file == again_file,
    ensures
        response_for(site, request, file) == response_for(site, again, again_file),
        response_for(site, request, file).body == response_for(site, again, again_file).body,
{
}

/// The query string of a request changes nothing in the response.
pub proof fn law_query_is_ignored(
    site: SiteView,
    request: RequestView,
    query: Seq<u8>,
    file: Option<StaticFileView>,
)
    ensures
        response_for(site, RequestView { query, ..request }, file) == response_for(
            site,
            request,
            file,
        ),
{
}

/// Planning a request and then, where the plan asks for a file, finishing
/// with what the file system yielded gives the response to the request.
pub proof fn law_plan_then_finish(
    site: SiteView,
    request: RequestView,
    file: Option<StaticFileView>,
)
    ensures
        match plan_spec(site, request) {
            StepView::Respond(response) => response == response_for(site, request, file),
            StepView::ReadFile(_) => intercepted(site, resolved(file_outcome(file)))
                == response_for(site, request, file),
            StepView::ReadDirectory { .. } => intercepted(site, resolved(file_outcome(file)))
                == response_for(site, request, file),
        },
{
}

/// A page shows the value of a field for which its template has a slot, if
/// the value holds nothing that escaping would change.
pub proof fn lemma_page_shows_field(
    pieces: Seq<Piece>,
    fields: Map<Seq<u8>, Seq<u8>>,
    name: Seq<u8>,
)
    requires
        all_plain(fields[name]),
    ensures
        shows(pieces, name, fill(pieces, fields), fields[name]),
{
    if has_slot(pieces, name) {
        let i: int = choose|i: int|
            0 <= i < pieces.len() && is_slot_for(#[trigger] pieces[i], name);
        lemma_fill_contains(pieces, fields, i);
        lemma_escape_plain(fields[name]);
    }
}

/// The lengths of the paths of the route table and the byte after the first
/// `/` of each: enough to tell them apart.
proof fn lemma_route_paths()
    ensures
        "/".spec_bytes().len() == 1,
        "/index".spec_bytes().len() == 6,
        "/about".spec_bytes().len() == 6,
        "/favicon.ico".spec_bytes().len() == 12,
        "/styles.css".spec_bytes().len() == 11,
        "/assets".spec_bytes().len() == 7,
        "/index".spec_bytes()[1] == 0x69,
        "/about".spec_bytes()[1] == 0x61,
        "/favicon.ico".spec_bytes()[1] == 0x66,
        "/styles.css".spec_bytes()[1] == 0x73,
        "/assets".spec_bytes()[1] == 0x61,
{
    reveal_strlit("/");
    reveal_strlit("/index");
    reveal_strlit("/about");
    reveal_strlit("/favicon.ico");
    reveal_strlit("/styles.css");
    reveal_strlit("/assets");
    is_ascii_spec_bytes("/");
    is_ascii_spec_bytes("/index");
    is_ascii_spec_bytes("/about");
    is_ascii_spec_bytes("/favicon.ico");
    is_ascii_spec_bytes("/styles.css");
    is_ascii_spec_bytes("/assets");
}

/// Which handler answers a GET request for each of the five paths that the
/// routes name.
proof fn lemma_named_paths()
    ensures
        is_routed("GET".spec_bytes(), "/".spec_bytes()),
        is_routed("GET".spec_bytes(), "/index".spec_bytes()),
        is_routed("GET".spec_bytes(), "/about".spec_bytes()),
        is_routed("GET".spec_bytes(), "/favicon.ico".spec_bytes()),
        is_routed("GET".spec_bytes(), "/styles.css".spec_bytes()),
        handler_for("/".spec_bytes()) == Handler::Index,
        handler_for("/index".spec_bytes()) == Handler::Index,
        handler_for("/about".spec_bytes()) == Handler::About,
        handler_for("/favicon.ico".spec_bytes()) == Handler::Favicon,
        handler_for("/styles.css".spec_bytes()) == Handler::Styles,
{
    lemma_route_paths();
}

/// A path below the assets directory is longer than each of the paths that
/// the routes name, and begins as the path of the directory does.
proof fn lemma_below_assets(path: Seq<u8>)
    requires
        is_below(path, "/assets".spec_bytes()),
    ensures
        path.len() >= 8,
        path[1] == "/assets".spec_bytes()[1],
{
    lemma_route_paths();
    let mount = "/assets".spec_bytes() + seq![SLASH];
    assert(path.subrange(0, 8)[1] == mount[1]);
}

/// A path in the assets directory is answered by the handler of the
/// directory.
proof fn lemma_assets_paths(path: Seq<u8>)
    requires
        path == "/assets".spec_bytes() || is_below(path, "/assets".spec_bytes()),
    ensures
        is_routed("GET".spec_bytes(), path),
        handler_for(path) == Handler::Assets,
{
    lemma_route_paths();
    if is_below(path, "/assets".spec_bytes()) {
        lemma_below_assets(path);
    }
}

/// The lengths of the field names of the three pages, in bytes.
proof fn lemma_name_lengths()
    ensures
        "title".spec_bytes().len() == 5,
        "keywords".spec_bytes().len() == 8,
        "description".spec_bytes().len() == 11,
        "test".spec_bytes().len() == 4,
        "error".spec_bytes().len() == 5,
        "status_code".spec_bytes().len() == 11,
{
    reveal_strlit("title");
    reveal_strlit("keywords");
    reveal_strlit("description");
    reveal_strlit("test");
    reveal_strlit("error");
    reveal_strlit("status_code");
    is_ascii_spec_bytes("title");
    is_ascii_spec_bytes("keywords");
    is_ascii_spec_bytes("description");
    is_ascii_spec_bytes("test");
    is_ascii_spec_bytes("error");
    is_ascii_spec_bytes("status_code");
}

/// The values of the fields of the index page hold nothing that escaping
/// would change.
proof fn lemma_index_texts()
    ensures
        all_plain("Index Title".spec_bytes()),
        all_plain("Index Keywords".spec_bytes()),
        all_plain("Index Description".spec_bytes()),
        all_plain("Index Test".spec_bytes()),
{
    reveal_strlit("Index Title");
    reveal_strlit("Index Keywords");
    reveal_strlit("Index Description");
    reveal_strlit("Index Test");
    is_ascii_spec_bytes("Index Title");
    is_ascii_spec_bytes("Index Keywords");
    is_ascii_spec_bytes("Index Description");
    is_ascii_spec_bytes("Index Test");
}

/// The values of the fields of the about page hold nothing that escaping
/// would change.
proof fn lemma_about_texts()
    ensures
        all_plain("About Title".spec_bytes()),
        all_plain("About Keywords".spec_bytes()),
        all_plain("About Description".spec_bytes()),
{
    reveal_strlit("About Title");
    reveal_strlit("About Keywords");
    reveal_strlit("About Description");
    is_ascii_spec_bytes("About Title");
    is_ascii_spec_bytes("About Keywords");
    is_ascii_spec_bytes("About Description");
}

/// The values of the fields of the error page for a 404 are `Page not found`
/// and `404`, and hold nothing that escaping would change.
proof fn lemma_not_found_texts()
    ensures
        all_plain("Page not found".spec_bytes()),
        all_plain("404".spec_bytes()),
        status_digits(404) == "404".spec_bytes(),
{
    reveal_strlit("Page not found");
    reveal_strlit("404");
    is_ascii_spec_bytes("Page not found");
    is_ascii_spec_bytes("404");
    assert(status_digits(404) =~= "404".spec_bytes());
}

/// The index page shows the value of each field for which its template has
/// a slot.
proof fn lemma_index_shows(pieces: Seq<Piece>)
    ensures
        shows(
            pieces,
            "title".spec_bytes(),
            fill(pieces, index_fields()),
            "Index Title".spec_bytes(),
        ),
        shows(
            pieces,
            "keywords".spec_bytes(),
            fill(pieces, index_fields()),
            "Index Keywords".spec_bytes(),
        ),
        shows(
            pieces,
            "description".spec_bytes(),
            fill(pieces, index_fields()),
            "Index Description".spec_bytes(),
        ),
        shows(pieces, "test".spec_bytes(), fill(pieces, index_fields()), "Index Test".spec_bytes()),
{
    lemma_name_lengths();
    lemma_index_texts();
    let fields = index_fields();
    assert(fields["title".spec_bytes()] == "Index Title".spec_bytes());
    assert(fields["keywords".spec_bytes()] == "Index Keywords".spec_bytes());
    assert(fields["description".spec_bytes()] == "Index Description".spec_bytes());
    assert(fields["test".spec_bytes()] == "Index Test".spec_bytes());
    lemma_page_shows_field(pieces, fields, "title".spec_bytes());
    lemma_page_shows_field(pieces, fields, "keywords".spec_bytes());
    lemma_page_shows_field(pieces, fields, "description".spec_bytes());
    lemma_page_shows_field(pieces, fields, "test".spec_bytes());
}

/// The about page shows the value of each field for which its template has
/// a slot.
proof fn lemma_about_shows(pieces: Seq<Piece>)
    ensures
        shows(
            pieces,
            "title".spec_bytes(),
            fill(pieces, about_fields()),
            "About Title".spec_bytes(),
        ),
        shows(
            pieces,
            "keywords".spec_bytes(),
            fill(pieces, about_fields()),
            "About Keywords".spec_bytes(),
        ),
        shows(
            pieces,
            "description".spec_bytes(),
            fill(pieces, about_fields()),
            "About Description".spec_bytes(),
        ),
{
    lemma_name_lengths();
    lemma_about_texts();
    let fields = about_fields();
    assert(fields["title".spec_bytes()] == "About Title".spec_bytes());
    assert(fields["keywords".spec_bytes()] == "About Keywords".spec_bytes());
    assert(fields["description".spec_bytes()] == "About Description".spec_bytes());
    lemma_page_shows_field(pieces, fields, "title".spec_bytes());
    lemma_page_shows_field(pieces, fields, "keywords".spec_bytes());
    lemma_page_shows_field(pieces, fields, "description".spec_bytes());
}

/// The error page for a 404 shows `Page not found` and `404`, each if its
/// template has a slot for it.
proof fn lemma_not_found_shows(pieces: Seq<Piece>)
    ensures
        shows(
            pieces,
            "error".spec_bytes(),
            fill(pieces, error_fields(404, not_found_text())),
            "Page not found".spec_bytes(),
        ),
        shows(
            pieces,
            "status_code".spec_bytes(),
            fill(pieces, error_fields(404, not_found_text())),
            "404".spec_bytes(),
        ),
{
    lemma_name_lengths();
    lemma_not_found_texts();
    let fields = error_fields(404, not_found_text());
    assert(fields["error".spec_bytes()] == "Page not found".spec_bytes());
    assert(fields["status_code".spec_bytes()] == "404".spec_bytes());
    lemma_page_shows_field(pieces, fields, "error".spec_bytes());
    lemma_page_shows_field(pieces, fields, "status_code".spec_bytes());
}

} // verus!
