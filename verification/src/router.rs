//! The gateway: the configuration fixed at startup and the routing decisions
//! it makes, request by request.

use crate::error::RouteError;
use crate::host::{classification, classify, classify_strict, label_view, strict_classification};
use crate::route::{BackendAddress, BackendAddressView, RouteTable};
use crate::static_site::{
    allows_method, climbs_out, has_parent_segment, is_read_method, serve_file, served,
    served_view, static_file_path, static_path, StaticResponse,
};
use crate::text::has_char;
use vstd::prelude::*;

verus! {

/// What is to be done with a request.
#[derive(Debug, Clone, PartialEq, Eq)]
pub enum Decision {
    /// Serve the file at this path.
    ServeStatic(String),
    /// Forward the request to this backend.
    ForwardTo(BackendAddress),
    /// Reject the request.
    Error(RouteError),
}

/// A decision as plain mathematical values.
pub enum DecisionView {
    ServeStatic(Seq<char>),
    ForwardTo(BackendAddressView),
    Error(RouteError),
}

impl View for Decision {
    type V = DecisionView;

    open spec fn view(&self) -> DecisionView {
        match self {
            Decision::ServeStatic(file) => DecisionView::ServeStatic(file@),
            Decision::ForwardTo(address) => DecisionView::ForwardTo(address@),
            Decision::Error(e) => DecisionView::Error(*e),
        }
    }
}

/// A gateway's configuration as plain mathematical values.
pub struct Config {
    /// The suffix that every accepted host ends with.
    pub base_domain: Seq<char>,
    /// The directory under which static files lie.
    pub static_root: Seq<char>,
    /// The name by which responses identify the serving software.
    pub server_name: Seq<char>,
    /// The backend of each routed subdomain label.
    pub routes: Map<Seq<char>, BackendAddressView>,
    /// Whether hosts off a label boundary and paths with a `..` segment are
    /// turned away.
    pub hardened: bool,
}

impl Config {
    /// The base domain is not empty and has no path in it.
    pub open spec fn well_formed(self) -> bool {
        self.base_domain.len() > 0 && !self.base_domain.contains('/')
    }

    /// The label of the site that `host` names, or `InvalidDomain`.
    pub open spec fn label(self, host: Seq<char>) -> Result<Seq<char>, RouteError> {
        if self.hardened {
            strict_classification(host, self.base_domain)
        } else {
            classification(host, self.base_domain)
        }
    }

    /// The decision for a classified request.
    ///
    /// The empty label is the root site: a static file for `GET` and `HEAD`,
    /// `MethodNotAllowed` for every other method. Any other label is looked
    /// up in the route table, whatever the method and the path, and is
    /// `NotFound` where the table has no entry for it.
    pub open spec fn resolution(
        self,
        label: Seq<char>,
        method: Seq<char>,
        path: Seq<char>,
    ) -> DecisionView {
        if label.len() == 0 {
            if !is_read_method(method) {
                DecisionView::Error(RouteError::MethodNotAllowed)
            } else if self.hardened && has_parent_segment(path) {
                DecisionView::Error(RouteError::NotFound)
            } else {
                DecisionView::ServeStatic(static_path(self.static_root, path))
            }
        } else if self.routes.dom().contains(label) {
            DecisionView::ForwardTo(self.routes[label])
        } else {
            DecisionView::Error(RouteError::NotFound)
        }
    }

    /// The decision for a request as it arrives: classification of the host,
    /// then resolution of the label.
    pub open spec fn routing(
        self,
        host: Seq<char>,
        method: Seq<char>,
        path: Seq<char>,
    ) -> DecisionView {
        match self.label(host) {
            Ok(label) => self.resolution(label, method, path),
            Err(e) => DecisionView::Error(e),
        }
    }

    /// What the request filter answers: the file to serve for the root site,
    /// `None` for a request that is left to a backend, or the rejection.
    pub open spec fn filtering(self, host: Seq<char>, method: Seq<char>, path: Seq<char>) -> Result<
        Option<Seq<char>>,
        RouteError,
    > {
        match self.label(host) {
            Err(e) => Err(e),
            Ok(label) => if label.len() > 0 {
                Ok(None)
            } else {
                match self.resolution(label, method, path) {
                    DecisionView::ServeStatic(file) => Ok(Some(file)),
                    DecisionView::ForwardTo(_) => Ok(None),
                    DecisionView::Error(e) => Err(e),
                }
            },
        }
    }

    /// The backend that a request is forwarded to. The root site has none.
    pub open spec fn upstream(self, host: Seq<char>) -> Result<BackendAddressView, RouteError> {
        match self.label(host) {
            Err(e) => Err(e),
            Ok(label) => if label.len() > 0 && self.routes.dom().contains(label) {
                Ok(self.routes[label])
            } else {
                Err(RouteError::NotFound)
            },
        }
    }
}

/// The characters of a `Host` header; a request without one has the empty
/// host.
pub open spec fn host_text(host: Option<&str>) -> Seq<char> {
    match host {
        Some(h) => h@,
        None => Seq::empty(),
    }
}

/// The mathematical reading of a request filter's answer.
pub open spec fn filter_view(r: Result<Option<String>, RouteError>) -> Result<
    Option<Seq<char>>,
    RouteError,
> {
    match r {
        Ok(Some(file)) => Ok(Some(file@)),
        Ok(None) => Ok(None),
        Err(e) => Err(e),
    }
}

/// The mathematical reading of an upstream choice.
pub open spec fn upstream_view(r: Result<BackendAddress, RouteError>) -> Result<
    BackendAddressView,
    RouteError,
> {
    match r {
        Ok(address) => Ok(address@),
        Err(e) => Err(e),
    }
}

/// The gateway: base domain, static root, server name and route table, all
/// fixed when it is built and only read afterwards.
#[derive(Debug)]
pub struct GW {
    base_domain: String,
    static_root: String,
    server_name: String,
    routes: RouteTable,
    hardened: bool,
}

impl GW {
    #[verifier::type_invariant]
    spec fn base_domain_is_valid(&self) -> bool {
        self.base_domain@.len() > 0 && !self.base_domain@.contains('/')
    }

    /// The route table that this gateway holds.
    pub closed spec fn table(&self) -> RouteTable {
        self.routes
    }

    /// The configuration that this gateway holds.
    pub closed spec fn view(&self) -> Config {
        Config {
            base_domain: self.base_domain@,
            static_root: self.static_root@,
            server_name: self.server_name@,
            routes: self.routes@,
            hardened: self.hardened,
        }
    }

    /// A gateway for `base_domain`, or `None` where `base_domain` is empty or
    /// holds a `/`. Hardening is off: hosts and paths are taken as they come.
    pub fn new(base_domain: &str, static_root: &str, server_name: &str, routes: RouteTable) -> (gw:
        Option<Self>)
        ensures
            gw is Some <==> base_domain@.len() > 0 && !base_domain@.contains('/'),
            gw matches Some(g) ==> g@ == (Config {
                base_domain: base_domain@,
                static_root: static_root@,
                server_name: server_name@,
                routes: routes@,
                hardened: false,
            }),
            gw matches Some(g) ==> g.table() == routes,
    {
        if base_domain.is_empty() || has_char(base_domain, '/') {
            return None;
        }
        Some(
            GW {
                base_domain: base_domain.to_owned(),
                static_root: static_root.to_owned(),
                server_name: server_name.to_owned(),
                routes,
                hardened: false,
            },
        )
    }

    /// The same gateway with hardening switched on or off.
    pub fn with_hardening(self, hardened: bool) -> (gw: Self)
        ensures
            gw@ == (Config { hardened, ..self@ }),
            gw.table() == self.table(),
    {
        proof {
            use_type_invariant(&self);
        }
        GW {
            base_domain: self.base_domain,
            static_root: self.static_root,
            server_name: self.server_name,
            routes: self.routes,
            hardened,
        }
    }

    /// The base domain, which is never empty and holds no `/`.
    pub fn base_domain(&self) -> (base: &str)
        ensures
            base@ == self@.base_domain,
            self@.well_formed(),
    {
        proof {
            use_type_invariant(self);
        }
        self.base_domain.as_str()
    }

    /// The directory under which static files lie.
    pub fn static_root(&self) -> (root: &str)
        ensures
            root@ == self@.static_root,
    {
        self.static_root.as_str()
    }

    /// The name by which responses identify the serving software.
    pub fn server_name(&self) -> (name: &str)
        ensures
            name@ == self@.server_name,
    {
        self.server_name.as_str()
    }

    /// The route table, with its entries in the order in which they were
    /// added.
    pub fn routes(&self) -> (table: &RouteTable)
        ensures
            *table == self.table(),
            table@ == self@.routes,
    {
        &self.routes
    }

    /// Whether hardening is on.
    pub fn is_hardened(&self) -> (hardened: bool)
        ensures
            hardened == self@.hardened,
    {
        self.hardened
    }

    /// Extracts the subdomain label that `host` names under the base domain.
    pub fn classify(&self, host: Option<&str>) -> (r: Result<String, RouteError>)
        ensures
            label_view(r) == self@.label(host_text(host)),
    {
        let text: &str = match host {
            Some(h) => h,
            None => "",
        };
        proof {
            reveal_strlit("");
            assert(text@ =~= host_text(host));
        }
        if self.hardened {
            classify_strict(text, self.base_domain.as_str())
        } else {
            classify(text, self.base_domain.as_str())
        }
    }

    /// Decides what to do with a request for the site `label`.
    pub fn resolve(&self, label: &str, method: &str, path: &str) -> (d: Decision)
        ensures
            d@ == self@.resolution(label@, method@, path@),
    {
        if label.is_empty() {
            if !allows_method(method) {
                Decision::Error(RouteError::MethodNotAllowed)
            } else if self.hardened && climbs_out(path) {
                Decision::Error(RouteError::NotFound)
            } else {
                Decision::ServeStatic(static_file_path(self.static_root.as_str(), path))
            }
        } else {
            match self.routes.lookup(label) {
                Some(address) => Decision::ForwardTo(address),
                None => Decision::Error(RouteError::NotFound),
            }
        }
    }

    /// Decides what to do with a request, from its `Host` header, method and
    /// path.
    pub fn route(&self, host: Option<&str>, method: &str, path: &str) -> (d: Decision)
        ensures
            d@ == self@.routing(host_text(host), method@, path@),
    {
        match self.classify(host) {
            Ok(label) => self.resolve(label.as_str(), method, path),
            Err(e) => Decision::Error(e),
        }
    }

    /// The first step on a request: answers with the file to serve where the
    /// request is for the root site, with `None` where it is for a backend,
    /// and with the rejection otherwise. The route table is not consulted.
    pub fn request_filter(&self, host: Option<&str>, method: &str, path: &str) -> (r: Result<
        Option<String>,
        RouteError,
    >)
        ensures
            filter_view(r) == self@.filtering(host_text(host), method@, path@),
    {
        let label = match self.classify(host) {
            Ok(label) => label,
            Err(e) => {
                return Err(e);
            },
        };
        if !label.as_str().is_empty() {
            return Ok(None);
        }
        match self.resolve(label.as_str(), method, path) {
            Decision::ServeStatic(file) => Ok(Some(file)),
            Decision::ForwardTo(_) => Ok(None),
            Decision::Error(e) => Err(e),
        }
    }

    /// The second step on a request that the filter left to a backend: the
    /// address to forward it to.
    pub fn upstream_peer(&self, host: Option<&str>) -> (r: Result<BackendAddress, RouteError>)
        ensures
            upstream_view(r) == self@.upstream(host_text(host)),
    {
        let label = match self.classify(host) {
            Ok(label) => label,
            Err(e) => {
                return Err(e);
            },
        };
        if label.as_str().is_empty() {
            return Err(RouteError::NotFound);
        }
        match self.routes.lookup(label.as_str()) {
            Some(address) => Ok(address),
            None => Err(RouteError::NotFound),
        }
    }

    /// The last step on a request for the root site: turns the outcome of
    /// reading the file into the response, or into `NotFound`.
    pub fn static_response(&self, read: Option<Vec<u8>>) -> (r: Result<StaticResponse, RouteError>)
        ensures
            served_view(r) == served(
                self@.server_name,
                match read {
                    Some(contents) => Some(contents@),
                    None => None,
                },
            ),
    {
        serve_file(self.server_name.as_str(), read)
    }
}

} // verus!
