//! Where the endpoints are mounted: scopes, and the routes and file
//! services under them.

use vstd::prelude::*;
use crate::api::post::AppState;

verus! {

/// The HTTP method of a route.
#[derive(Clone, Copy, Debug, PartialEq, Eq, Structural)]
pub enum Method {
    Get,
    Post,
    Put,
    Delete,
}

/// The endpoints of the service.
#[derive(Clone, Copy, Debug, PartialEq, Eq, Structural)]
pub enum Endpoint {
    GetPost,
    GetPostById,
    NewPost,
    PublishPost,
    DeletePost,
    PostCounter,
    CallPath,
    CallPlain,
    CallQuery,
    CallParamquery,
    CallPostjson,
    CallPosturlencoded,
    CallRespjson,
}

/// One route: requests with `method` whose path, below the scope's prefix,
/// fits the pattern `path` go to `endpoint`. A part of the pattern in braces
/// stands for one segment of the path.
#[derive(Debug, PartialEq, Eq)]
pub struct Route {
    pub method: Method,
    pub path: String,
    pub endpoint: Endpoint,
}

/// A route, as the contracts see it.
pub struct RouteView {
    pub method: Method,
    pub path: Seq<char>,
    pub endpoint: Endpoint,
}

impl View for Route {
    type V = RouteView;

    open spec fn view(&self) -> RouteView {
        RouteView { method: self.method, path: self.path@, endpoint: self.endpoint }
    }
}

impl DeepView for Route {
    type V = RouteView;

    open spec fn deep_view(&self) -> RouteView {
        self@
    }
}

impl Route {
    /// The route from `method` and `path` to `endpoint`.
    pub fn new(method: Method, path: &str, endpoint: Endpoint) -> (route: Route)
        ensures
            route@ == (RouteView { method, path: path@, endpoint }),
    {
        Route { method, path: path.to_string(), endpoint }
    }
}

/// A service of static files: requests below `mount_path` are answered from
/// the directory `serve_from`. It either lists a directory's files or
/// answers a directory with its index file, not both.
#[derive(Debug, PartialEq, Eq)]
pub struct Files {
    pub mount_path: String,
    pub serve_from: String,
    pub show_files_listing: bool,
    pub index_file: Option<String>,
}

/// A file service, as the contracts see it.
pub struct FilesView {
    pub mount_path: Seq<char>,
    pub serve_from: Seq<char>,
    pub show_files_listing: bool,
    pub index_file: Option<Seq<char>>,
}

impl View for Files {
    type V = FilesView;

    open spec fn view(&self) -> FilesView {
        FilesView {
            mount_path: self.mount_path@,
            serve_from: self.serve_from@,
            show_files_listing: self.show_files_listing,
            index_file: match self.index_file {
                Some(name) => Some(name@),
                None => None,
            },
        }
    }
}

impl DeepView for Files {
    type V = FilesView;

    open spec fn deep_view(&self) -> FilesView {
        self@
    }
}

/// A group of routes and file services under one prefix, with the state
/// that its endpoints share, if they share any.
#[derive(Debug, PartialEq, Eq)]
pub struct Scope {
    pub prefix: String,
    pub state: Option<AppState>,
    pub routes: Vec<Route>,
    pub files: Vec<Files>,
}

/// A scope, as the contracts see it. `calls` is the counter of the shared
/// state.
pub struct ScopeView {
    pub prefix: Seq<char>,
    pub calls: Option<int>,
    pub routes: Seq<RouteView>,
    pub files: Seq<FilesView>,
}

impl View for Scope {
    type V = ScopeView;

    open spec fn view(&self) -> ScopeView {
        ScopeView {
            prefix: self.prefix@,
            calls: match self.state {
                Some(state) => Some(state.calls()),
                None => None,
            },
            routes: self.routes.deep_view(),
            files: self.files.deep_view(),
        }
    }
}

} // verus!
