use web_pages::request::Request;
use web_pages::response::{
    failure_response, resolve, serve_file, Failure, Response, StaticFile,
};
use web_pages::site::{
    about_page, error_page, index_page, page_response, Page, Site, SiteError, Step,
};
use web_pages::status::Status;
use web_pages::template::RenderError;

const INDEX: &str = "<html><head><title><%= title %></title>\
<meta name=\"keywords\" content=\"<%= keywords %>\">\
<meta name=\"description\" content=\"<%= description %>\"></head>\
<body><p><%= test %></p></body></html>";

const ABOUT: &str = "<html><head><title><%= title %></title>\
<meta name=\"keywords\" content=\"<%= keywords %>\">\
<meta name=\"description\" content=\"<%= description %>\"></head>\
<body>About</body></html>";

const ERROR: &str = "<html><body><h1><%= status_code %></h1><p><%= error %></p></body></html>";

fn site() -> Site {
    Site::new(INDEX.as_bytes(), ABOUT.as_bytes(), ERROR.as_bytes()).unwrap()
}

fn get(path: &str) -> Request {
    Request::new("GET", path, "")
}

fn text(response: &Response) -> String {
    String::from_utf8(response.body.clone()).unwrap()
}

fn icon() -> StaticFile {
    StaticFile { content_type: "image/x-icon".to_string(), bytes: vec![0, 0, 1, 0, 255, 60, 37] }
}

fn not_found_page() -> String {
    "<html><body><h1>404</h1><p>Page not found</p></body></html>".to_string()
}

#[test]
fn index_is_served_at_root() {
    let response = site().respond(&get("/"), None);
    assert_eq!(response.status.code(), 200);
    assert_eq!(response.content_type, "text/html");
    assert!(text(&response).contains("Index Title"));
    assert_eq!(
        text(&response),
        "<html><head><title>Index Title</title>\
<meta name=\"keywords\" content=\"Index Keywords\">\
<meta name=\"description\" content=\"Index Description\"></head>\
<body><p>Index Test</p></body></html>"
    );
}

#[test]
fn index_is_served_at_index() {
    let site = site();
    let response = site.respond(&get("/index"), None);
    assert_eq!(response.status.code(), 200);
    assert_eq!(response.content_type, "text/html");
    assert!(text(&response).contains("Index Title"));
    assert_eq!(response, site.respond(&get("/"), None));
}

#[test]
fn about_without_query() {
    let response = site().respond(&get("/about"), None);
    assert_eq!(response.status.code(), 200);
    assert_eq!(response.content_type, "text/html");
    let body = text(&response);
    assert!(body.contains("About Title"));
    assert!(body.contains("About Keywords"));
    assert!(body.contains("About Description"));
}

#[test]
fn nope_is_not_found() {
    let response = site().respond(&get("/nope"), None);
    assert_eq!(response.status.code(), 404);
    assert_eq!(response.content_type, "text/html");
    let body = text(&response);
    assert!(body.contains("Page not found"));
    assert!(body.contains("404"));
    assert_eq!(body, not_found_page());
}

#[test]
fn unknown_paths_are_not_found() {
    let site = site();
    for path in ["/does-not-exist", "", "/about/", "/Index", "/index.html", "/assetsfoo", "//"] {
        let response = site.respond(&get(path), None);
        assert_eq!(response.status.code(), 404);
        assert!(text(&response).contains("Page not found"));
    }
}

#[test]
fn unknown_path_ignores_a_file() {
    let response = site().respond(&get("/nope"), Some(icon()));
    assert_eq!(response.status.code(), 404);
    assert_eq!(text(&response), not_found_page());
}

#[test]
fn other_methods_are_not_found() {
    let site = site();
    for method in ["POST", "PUT", "DELETE", "HEAD", "get", ""] {
        for path in ["/", "/about", "/favicon.ico", "/assets/a.png"] {
            let response = site.respond(&Request::new(method, path, ""), Some(icon()));
            assert_eq!(response.status.code(), 404);
            assert_eq!(text(&response), not_found_page());
        }
    }
}

#[test]
fn favicon_is_served_byte_for_byte() {
    let response = site().respond(&get("/favicon.ico"), Some(icon()));
    assert_eq!(response.status.code(), 200);
    assert_eq!(response.content_type, "image/x-icon");
    assert_eq!(response.body, vec![0, 0, 1, 0, 255, 60, 37]);
    assert!(response.headers.is_empty());
}

#[test]
fn styles_are_served_byte_for_byte() {
    let css = StaticFile {
        content_type: "text/css".to_string(),
        bytes: b"body { color: <%= red %>; }".to_vec(),
    };
    let response = site().respond(&get("/styles.css"), Some(css));
    assert_eq!(response.status.code(), 200);
    assert_eq!(response.content_type, "text/css");
    assert_eq!(response.body, b"body { color: <%= red %>; }".to_vec());
}

#[test]
fn absent_file_is_not_found() {
    let site = site();
    for path in ["/favicon.ico", "/styles.css", "/assets/logo.png"] {
        let response = site.respond(&get(path), None);
        assert_eq!(response.status.code(), 404);
        assert_eq!(response.content_type, "text/html");
        assert_eq!(text(&response), not_found_page());
    }
}

#[test]
fn empty_file_is_served() {
    let empty = StaticFile { content_type: "text/css".to_string(), bytes: Vec::new() };
    let response = site().respond(&get("/styles.css"), Some(empty));
    assert_eq!(response.status.code(), 200);
    assert!(response.body.is_empty());
}

#[test]
fn assets_are_served_below_their_route() {
    let site = site();
    for path in ["/assets", "/assets/", "/assets/img/logo.png"] {
        let response = site.respond(&get(path), Some(icon()));
        assert_eq!(response.status.code(), 200);
        assert_eq!(response.body, icon().bytes);
    }
}

#[test]
fn same_request_gives_same_response() {
    let site = site();
    for path in ["/", "/index", "/about", "/nope", "/favicon.ico"] {
        let first = site.respond(&get(path), Some(icon()));
        let second = site.respond(&get(path), Some(icon()));
        assert_eq!(first.body, second.body);
        assert_eq!(first, second);
    }
}

#[test]
fn query_is_not_looked_at() {
    let site = site();
    let plain = site.respond(&get("/about"), None);
    let queried = site.respond(&Request::new("GET", "/about", "lang=en&x=<1>"), None);
    assert_eq!(plain, queried);
    assert_eq!(site.index("a=b").unwrap(), site.index("").unwrap());
    assert_eq!(site.about("a=b").unwrap(), site.about("").unwrap());
}

#[test]
fn plan_responds_to_pages_at_once() {
    let site = site();
    match site.plan(&get("/about")) {
        Step::Respond(response) => {
            assert_eq!(response.status.code(), 200);
            assert!(text(&response).contains("About Title"));
        }
        other => panic!("{:?}", other),
    }
    match site.plan(&get("/nope")) {
        Step::Respond(response) => {
            assert_eq!(response.status.code(), 404);
            assert_eq!(text(&response), not_found_page());
        }
        other => panic!("{:?}", other),
    }
}

#[test]
fn plan_asks_for_files() {
    let site = site();
    assert_eq!(site.plan(&get("/favicon.ico")), Step::ReadFile("./files/favicon.ico"));
    assert_eq!(site.plan(&get("/styles.css")), Step::ReadFile("./files/styles.css"));
    assert_eq!(
        site.plan(&get("/assets/img/logo.png")),
        Step::ReadDirectory { root: "./files/assets", rest: b"/img/logo.png".to_vec() }
    );
    assert_eq!(
        site.plan(&get("/assets")),
        Step::ReadDirectory { root: "./files/assets", rest: Vec::new() }
    );
    assert_eq!(
        site.plan(&get("/assets/")),
        Step::ReadDirectory { root: "./files/assets", rest: b"/".to_vec() }
    );
}

#[test]
fn finish_serves_or_reports() {
    let site = site();
    let served = site.finish(Some(icon()));
    assert_eq!(served.status.code(), 200);
    assert_eq!(served.body, icon().bytes);
    let missing = site.finish(None);
    assert_eq!(missing.status.code(), 404);
    assert_eq!(text(&missing), not_found_page());
}

#[test]
fn interceptor_passes_ok_responses() {
    let site = site();
    let response = Response {
        status: Status::ok(),
        content_type: "text/plain".to_string(),
        headers: vec![("etag".to_string(), "\"1\"".to_string())],
        body: b"Page not found? No: 404 is only text here.".to_vec(),
    };
    assert_eq!(site.error_handlers(response.clone()), response);
}

#[test]
fn interceptor_passes_other_errors() {
    let site = site();
    for code in [100, 204, 301, 400, 403, 405, 500, 503, 999] {
        let response = Response {
            status: Status::new(code).unwrap(),
            content_type: "text/plain".to_string(),
            headers: Vec::new(),
            body: b"as it was".to_vec(),
        };
        assert_eq!(site.error_handlers(response.clone()), response);
    }
}

#[test]
fn interceptor_rewrites_not_found() {
    let site = site();
    let response = Response {
        status: Status::not_found(),
        content_type: "text/plain".to_string(),
        headers: vec![("x-trace".to_string(), "abc".to_string())],
        body: b"no such file".to_vec(),
    };
    let page = site.error_handlers(response);
    assert_eq!(page.status.code(), 404);
    assert_eq!(page.content_type, "text/html");
    assert_eq!(page.headers, vec![("x-trace".to_string(), "abc".to_string())]);
    assert_eq!(text(&page), not_found_page());
}

#[test]
fn not_found_replaces_the_body() {
    let site = site();
    let page = site.not_found(Response::empty(Status::not_found()));
    assert_eq!(page.status.code(), 404);
    assert_eq!(text(&page), not_found_page());
}

#[test]
fn error_response_shows_status_and_text() {
    let site = site();
    let response = Response::empty(Status::new(503).unwrap());
    let page = site.get_error_response(&response, "Try <later> & again");
    assert_eq!(page.status.code(), 503);
    assert_eq!(page.content_type, "text/html");
    assert_eq!(
        text(&page),
        "<html><body><h1>503</h1><p>Try &lt;later&gt; &amp; again</p></body></html>"
    );
}

#[test]
fn status_text_is_three_digits() {
    assert_eq!(Status::not_found().as_text(), "404");
    assert_eq!(Status::ok().as_text(), "200");
    assert_eq!(Status::internal_server_error().as_text(), "500");
    assert_eq!(Status::new(100).unwrap().as_text(), "100");
    assert_eq!(Status::new(999).unwrap().as_text(), "999");
    assert_eq!(Status::new(307).unwrap().as_text(), "307");
}

#[test]
fn status_codes_run_from_100_to_999() {
    assert_eq!(Status::new(99), None);
    assert_eq!(Status::new(0), None);
    assert_eq!(Status::new(1000), None);
    assert_eq!(Status::new(65535), None);
    assert_eq!(Status::new(100).unwrap().code(), 100);
    assert_eq!(Status::new(999).unwrap().code(), 999);
    assert_eq!(Status::new(404), Some(Status::not_found()));
}

#[test]
fn failures_become_bare_responses() {
    let render = failure_response(Failure::Render(RenderError::MissingField { slot: 2 }));
    assert_eq!(render, Response::empty(Status::internal_server_error()));
    assert_eq!(failure_response(Failure::FileNotFound), Response::empty(Status::not_found()));
    assert_eq!(failure_response(Failure::RouteNotMatched), Response::empty(Status::not_found()));
    assert_eq!(resolve(Err(Failure::FileNotFound)).status.code(), 404);
    let own = Response::page(Status::ok(), b"x".to_vec());
    assert_eq!(resolve(Ok(own.clone())), own);
}

#[test]
fn render_failure_is_a_server_error() {
    let outcome = page_response(Err(RenderError::MissingField { slot: 1 }));
    assert_eq!(outcome, Err(Failure::Render(RenderError::MissingField { slot: 1 })));
    let response = site().error_handlers(resolve(outcome));
    assert_eq!(response.status.code(), 500);
    assert!(response.body.is_empty());
    let page = page_response(Ok(b"<p>ok</p>".to_vec())).unwrap();
    assert_eq!(page.status.code(), 200);
    assert_eq!(page.content_type, "text/html");
    assert_eq!(page.body, b"<p>ok</p>".to_vec());
}

#[test]
fn serve_file_reports_absent_files() {
    assert_eq!(serve_file(None), Err(Failure::FileNotFound));
    let served = serve_file(Some(icon())).unwrap();
    assert_eq!(served.status.code(), 200);
    assert_eq!(served.content_type, "image/x-icon");
    assert_eq!(served.body, icon().bytes);
}

#[test]
fn page_fields_are_the_fixed_ones() {
    let index = index_page();
    assert_eq!(index.get(b"title"), Some("Index Title"));
    assert_eq!(index.get(b"keywords"), Some("Index Keywords"));
    assert_eq!(index.get(b"description"), Some("Index Description"));
    assert_eq!(index.get(b"test"), Some("Index Test"));
    let about = about_page();
    assert_eq!(about.get(b"title"), Some("About Title"));
    assert_eq!(about.get(b"keywords"), Some("About Keywords"));
    assert_eq!(about.get(b"description"), Some("About Description"));
    assert_eq!(about.get(b"test"), None);
    let error = error_page(Status::not_found(), "Page not found");
    assert_eq!(error.get(b"error"), Some("Page not found"));
    assert_eq!(error.get(b"status_code"), Some("404"));
}

#[test]
fn site_renders_pages_by_name() {
    let site = site();
    let page = site.render(Page::Error, &error_page(Status::not_found(), "gone")).unwrap();
    assert_eq!(
        String::from_utf8(page).unwrap(),
        "<html><body><h1>404</h1><p>gone</p></body></html>"
    );
    assert_eq!(
        site.render(Page::About, &error_page(Status::not_found(), "gone")),
        Err(RenderError::MissingField { slot: 1 })
    );
    assert_eq!(
        site.render(Page::Index, &about_page()),
        Err(RenderError::MissingField { slot: 7 })
    );
}

#[test]
fn malformed_template_stops_the_site() {
    let fault = Site::new(b"<%= title", ABOUT.as_bytes(), ERROR.as_bytes()).unwrap_err();
    assert_eq!(
        fault,
        SiteError { page: Page::Index, error: RenderError::Malformed { offset: 0 } }
    );
    let fault = Site::new(INDEX.as_bytes(), b"ab<% x %>", ERROR.as_bytes()).unwrap_err();
    assert_eq!(
        fault,
        SiteError { page: Page::About, error: RenderError::Malformed { offset: 2 } }
    );
    let fault = Site::new(INDEX.as_bytes(), ABOUT.as_bytes(), b"<%").unwrap_err();
    assert_eq!(
        fault,
        SiteError { page: Page::Error, error: RenderError::Malformed { offset: 0 } }
    );
}

#[test]
fn unknown_field_stops_the_site() {
    let fault = Site::new(b"<%= title %><%= nope %>", ABOUT.as_bytes(), ERROR.as_bytes())
        .unwrap_err();
    assert_eq!(
        fault,
        SiteError { page: Page::Index, error: RenderError::MissingField { slot: 1 } }
    );
    let fault = Site::new(INDEX.as_bytes(), b"<%= test %>", ERROR.as_bytes()).unwrap_err();
    assert_eq!(
        fault,
        SiteError { page: Page::About, error: RenderError::MissingField { slot: 0 } }
    );
    let fault = Site::new(INDEX.as_bytes(), ABOUT.as_bytes(), b"x<%= title %>").unwrap_err();
    assert_eq!(
        fault,
        SiteError { page: Page::Error, error: RenderError::MissingField { slot: 1 } }
    );
}

#[test]
fn first_faulty_template_is_reported() {
    let fault = Site::new(b"<%= nope %>", b"<%", b"<%").unwrap_err();
    assert_eq!(
        fault,
        SiteError { page: Page::Index, error: RenderError::MissingField { slot: 0 } }
    );
}

#[test]
fn templates_without_slots_are_accepted() {
    let site = Site::new(b"index", b"about", b"error").unwrap();
    assert_eq!(site.respond(&get("/"), None).body, b"index".to_vec());
    assert_eq!(site.respond(&get("/about"), None).body, b"about".to_vec());
    let missing = site.respond(&get("/nope"), None);
    assert_eq!(missing.status.code(), 404);
    assert_eq!(missing.body, b"error".to_vec());
}

#[test]
fn dispatch_reports_failures() {
    let site = site();
    assert_eq!(site.dispatch(&get("/nope"), None), Err(Failure::RouteNotMatched));
    assert_eq!(site.dispatch(&get("/nope"), Some(icon())), Err(Failure::RouteNotMatched));
    assert_eq!(site.dispatch(&Request::new("POST", "/", ""), None), Err(Failure::RouteNotMatched));
    assert_eq!(site.dispatch(&get("/favicon.ico"), None), Err(Failure::FileNotFound));
    assert_eq!(site.dispatch(&get("/styles.css"), None), Err(Failure::FileNotFound));
    assert_eq!(site.dispatch(&get("/assets/a.png"), None), Err(Failure::FileNotFound));
}

#[test]
fn dispatch_hands_over_to_handlers() {
    let site = site();
    assert_eq!(site.dispatch(&get("/"), None), site.index(""));
    assert_eq!(site.dispatch(&get("/index"), Some(icon())), site.index(""));
    assert_eq!(site.dispatch(&get("/about"), None), site.about(""));
    assert_eq!(site.dispatch(&get("/favicon.ico"), Some(icon())), serve_file(Some(icon())));
    let about = site.dispatch(&get("/about"), None).unwrap();
    assert_eq!(about.status.code(), 200);
    assert_eq!(about.content_type, "text/html");
    assert!(about.headers.is_empty());
}

#[test]
fn respond_agrees_with_plan_and_finish() {
    let site = site();
    for path in ["/", "/about", "/nope", "/favicon.ico", "/styles.css", "/assets/x"] {
        for file in [None, Some(icon())] {
            let planned = match site.plan(&get(path)) {
                Step::Respond(response) => response,
                Step::ReadFile(_) => site.finish(file.clone()),
                Step::ReadDirectory { .. } => site.finish(file.clone()),
            };
            assert_eq!(site.respond(&get(path), file), planned);
        }
    }
}
