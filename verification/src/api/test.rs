//! Endpoints that show the ways in which a request carries its data: in the
//! path, in the query, in a JSON or a form body. Each one answers with what
//! it received.

use vstd::prelude::*;
use vstd::string::StringExecFns;
use crate::api::reply::{Body, BodyView, HttpReply, HttpReplyView};
use crate::api::route::{Endpoint, Files, FilesView, Method, Route, RouteView, Scope, ScopeView};
use crate::types::text::{append_decimal, decimal_spec};

verus! {

/// The three segments of the path of `call_path`.
#[derive(Debug, PartialEq, Eq)]
pub struct PathParams {
    pub object: String,
    pub method: String,
    pub id: i32,
}

/// The query of `call_query`.
#[derive(Debug, PartialEq, Eq)]
pub struct QueryQuery {
    pub val: String,
}

/// The segment of the path of `call_paramquery`.
#[derive(Debug, PartialEq, Eq)]
pub struct PathQueryParams {
    pub param1: String,
}

/// The query of `call_paramquery`.
#[derive(Debug, PartialEq, Eq)]
pub struct PathQueryQuery {
    pub val: String,
}

/// The JSON body of `call_postjson`.
#[derive(Debug, PartialEq, Eq)]
pub struct PostJsonBodyJson {
    pub username: String,
}

/// The form body of `call_posturlencoded`.
#[derive(Debug, PartialEq, Eq)]
pub struct PostURLEncodedForm {
    pub username: String,
}

/// The record that `call_respjson` answers with.
#[derive(Debug, PartialEq, Eq)]
pub struct SampleJSONRespJSON {
    pub username: String,
}

/// The index file of a file service that lists no files.
pub open spec fn index_file_name() -> Seq<char> {
    "index.html"@
}

/// Answers with a greeting.
pub fn call_plain() -> (reply: HttpReply)
    ensures
        reply@ == HttpReplyView::ok(BodyView::JsonText("Hello"@)),
{
    HttpReply::ok(Body::JsonText("Hello".to_string()))
}

/// Answers with the three segments of the path.
pub fn call_path(path_params: &PathParams) -> (reply: HttpReply)
    ensures
        reply@ == HttpReplyView::ok(
            BodyView::JsonText(
                "Received path params: "@ + path_params.object@ + " "@ + path_params.method@
                    + " "@ + decimal_spec(path_params.id as int),
            ),
        ),
{
    let mut text = "Received path params: ".to_string();
    text.append(path_params.object.as_str());
    text.append(" ");
    text.append(path_params.method.as_str());
    text.append(" ");
    append_decimal(&mut text, path_params.id);
    HttpReply::ok(Body::JsonText(text))
}

/// Welcomes whom the query names.
pub fn call_query(query: &QueryQuery) -> (reply: HttpReply)
    ensures
        reply@ == HttpReplyView::ok(BodyView::JsonText("Welcome "@ + query.val@ + "!"@)),
{
    let mut text = "Welcome ".to_string();
    text.append(query.val.as_str());
    text.append("!");
    HttpReply::ok(Body::JsonText(text))
}

/// Answers with the segment of the path and the value of the query.
pub fn call_paramquery(path_params: &PathQueryParams, query: &PathQueryQuery) -> (reply: HttpReply)
    ensures
        reply@ == HttpReplyView::ok(
            BodyView::JsonText("Params: "@ + path_params.param1@ + " || Query: "@ + query.val@),
        ),
{
    let mut text = "Params: ".to_string();
    text.append(path_params.param1.as_str());
    text.append(" || Query: ");
    text.append(query.val.as_str());
    HttpReply::ok(Body::JsonText(text))
}

/// Answers with the user name of the JSON body.
pub fn call_postjson(body_json: &PostJsonBodyJson) -> (reply: HttpReply)
    ensures
        reply@ == HttpReplyView::ok(BodyView::JsonText("Body Json: "@ + body_json.username@)),
{
    let mut text = "Body Json: ".to_string();
    text.append(body_json.username.as_str());
    HttpReply::ok(Body::JsonText(text))
}

/// Answers with the user name of the form body.
pub fn call_posturlencoded(body_form: &PostURLEncodedForm) -> (reply: HttpReply)
    ensures
        reply@ == HttpReplyView::ok(BodyView::JsonText("Body Form: "@ + body_form.username@)),
{
    let mut text = "Body Form: ".to_string();
    text.append(body_form.username.as_str());
    HttpReply::ok(Body::JsonText(text))
}

/// Answers with the sample record of the user "leo".
pub fn call_respjson() -> (reply: HttpReply)
    ensures
        reply@ == HttpReplyView::ok(BodyView::JsonSample("leo"@)),
{
    HttpReply::ok(Body::JsonSample(SampleJSONRespJSON { username: "leo".to_string() }))
}

/// A service of the files of `serve_from` below `mount_path`: one that
/// lists a directory's files where `file_listing` is set, and one that
/// answers a directory with its `index.html` where it is not.
pub fn call_file(mount_path: &str, serve_from: &str, file_listing: bool) -> (files: Files)
    ensures
        files@ == (FilesView {
            mount_path: mount_path@,
            serve_from: serve_from@,
            show_files_listing: file_listing,
            index_file: if file_listing {
                None
            } else {
                Some(index_file_name())
            },
        }),
{
    if file_listing {
        return Files {
            mount_path: mount_path.to_string(),
            serve_from: serve_from.to_string(),
            show_files_listing: true,
            index_file: None,
        };
    }
    Files {
        mount_path: mount_path.to_string(),
        serve_from: serve_from.to_string(),
        show_files_listing: false,
        index_file: Some("index.html".to_string()),
    }
}

/// The scope of the sample endpoints: its prefix, its seven routes, and the
/// static files below `/static`, answered from `./static` with the index
/// file.
pub open spec fn tests_scope() -> ScopeView {
    ScopeView {
        prefix: "/tests"@,
        calls: None,
        routes: seq![
            RouteView {
                method: Method::Get,
                path: "/path/{object}/{method}/{id}"@,
                endpoint: Endpoint::CallPath,
            },
            RouteView { method: Method::Get, path: "/plain"@, endpoint: Endpoint::CallPlain },
            RouteView { method: Method::Get, path: "/query"@, endpoint: Endpoint::CallQuery },
            RouteView {
                method: Method::Get,
                path: "/param_query/{param1}"@,
                endpoint: Endpoint::CallParamquery,
            },
            RouteView {
                method: Method::Post,
                path: "/post_json"@,
                endpoint: Endpoint::CallPostjson,
            },
            RouteView {
                method: Method::Post,
                path: "/post_form"@,
                endpoint: Endpoint::CallPosturlencoded,
            },
            RouteView {
                method: Method::Get,
                path: "/respjson"@,
                endpoint: Endpoint::CallRespjson,
            },
        ],
        files: seq![
            FilesView {
                mount_path: "/static"@,
                serve_from: "./static"@,
                show_files_listing: false,
                index_file: Some(index_file_name()),
            },
        ],
    }
}

/// Mounts the sample endpoints and the static files.
pub fn routes_tests() -> (scope: Scope)
    ensures
        scope@ == tests_scope(),
{
    let mut routes: Vec<Route> = Vec::new();
    routes.push(Route::new(Method::Get, "/path/{object}/{method}/{id}", Endpoint::CallPath));
    routes.push(Route::new(Method::Get, "/plain", Endpoint::CallPlain));
    routes.push(Route::new(Method::Get, "/query", Endpoint::CallQuery));
    routes.push(Route::new(Method::Get, "/param_query/{param1}", Endpoint::CallParamquery));
    routes.push(Route::new(Method::Post, "/post_json", Endpoint::CallPostjson));
    routes.push(Route::new(Method::Post, "/post_form", Endpoint::CallPosturlencoded));
    routes.push(Route::new(Method::Get, "/respjson", Endpoint::CallRespjson));
    let mut files: Vec<Files> = Vec::new();
    files.push(call_file("/static", "./static", false));
    let scope = Scope { prefix: "/tests".to_string(), state: None, routes, files };
    assert(scope@.routes =~= tests_scope().routes);
    assert(scope@.files =~= tests_scope().files);
    scope
}

} // verus!
