//! Routing and templated responses for a small site of static pages.
//!
//! The site has an index page, an about page and an error page, each
//! rendered from a template, and a few static files. A listener hands each
//! request to [`site::Site`], which finds the route that answers it, lets
//! the handler of the route make the response, and turns every 404 into the
//! rendered error page. Reading files is left to the caller: where a route
//! has a file behind it, [`site::Site::plan`] says which, and
//! [`site::Site::finish`] takes what the file system yielded.
//!
//! - [`template`]: template text with named slots, and its rendering.
//! - [`fields`]: the named values that fill the slots.
//! - [`escape`]: HTML escaping of those values.
//! - [`route`]: the route table.
//! - [`request`], [`response`], [`status`]: what goes in and what comes out.
//! - [`site`]: the handlers and the interceptor.
//! - [`laws`]: what holds of every site and every request.
//! - [`text`]: byte strings.

pub mod escape;
pub mod fields;
pub mod laws;
pub mod request;
pub mod response;
pub mod route;
pub mod site;
pub mod status;
pub mod template;
pub mod text;
