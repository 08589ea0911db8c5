//! What holds of every host, every request and every configuration, proved
//! once over the definitions that the executable functions are held to.

use crate::engine::{can_hand_over, field_map, is_field_value, lower_case, no_fields};
use crate::error::RouteError;
use crate::router::{Config, DecisionView};
use crate::host::{classification, label_of, on_label_boundary, strict_classification};
use crate::static_site::{
    file_response, has_parent_segment, index_file, is_read_method, parent_segment_at, served,
    static_path, StaticResponseView,
};
use crate::text::ends_with;
use vstd::prelude::*;

verus! {

/// A host that does not end with the base domain is an invalid domain, with
/// or without hardening.
pub proof fn foreign_host_is_rejected(host: Seq<char>, base: Seq<char>)
    requires
        !ends_with(host, base),
    ensures
        classification(host, base) == Err::<Seq<char>, RouteError>(RouteError::InvalidDomain),
        strict_classification(host, base) == Err::<Seq<char>, RouteError>(
            RouteError::InvalidDomain,
        ),
{
}

/// The base domain itself names the root site: its label is empty, with or
/// without hardening.
pub proof fn base_domain_is_the_root_site(base: Seq<char>)
    ensures
        classification(base, base) == Ok::<Seq<char>, RouteError>(Seq::empty()),
        strict_classification(base, base) == Ok::<Seq<char>, RouteError>(Seq::empty()),
{
    assert(base.subrange(0, base.len() as int) =~= base);
    assert(label_of(base, base) =~= Seq::<char>::empty());
}

/// A label, a dot and the base domain is classified as that label, with or
/// without hardening.
pub proof fn subdomain_label_is_recovered(label: Seq<char>, base: Seq<char>)
    ensures
        classification(label + seq!['.'] + base, base) == Ok::<Seq<char>, RouteError>(label),
        strict_classification(label + seq!['.'] + base, base) == Ok::<Seq<char>, RouteError>(
            label,
        ),
{
    let host = label + seq!['.'] + base;
    assert(host.subrange(host.len() - base.len(), host.len() as int) =~= base);
    assert(host.subrange(0, host.len() - base.len()) =~= label + seq!['.']);
    assert((label + seq!['.']).drop_last() =~= label);
}

/// An accepted host is its label followed by the base domain, with at most
/// one dot between them.
pub proof fn accepted_host_is_label_and_base(host: Seq<char>, base: Seq<char>)
    requires
        ends_with(host, base),
    ensures
        host == label_of(host, base) + base || host == label_of(host, base) + seq!['.'] + base,
{
    let rest = host.subrange(0, host.len() - base.len());
    assert(host =~= rest + base);
    if rest.len() > 0 && rest.last() == '.' {
        assert(rest =~= rest.drop_last() + seq!['.']);
    }
}

/// Hardening only turns hosts away: a host that it accepts gets the label it
/// would get without it.
pub proof fn hardening_keeps_the_label(host: Seq<char>, base: Seq<char>)
    requires
        strict_classification(host, base) is Ok,
    ensures
        classification(host, base) == strict_classification(host, base),
        on_label_boundary(host, base),
{
}

/// A request without a `Host` header, or with an empty one, is an invalid
/// domain.
pub proof fn empty_host_is_rejected(cfg: Config, method: Seq<char>, path: Seq<char>)
    requires
        cfg.well_formed(),
    ensures
        cfg.routing(Seq::empty(), method, path) == DecisionView::Error(RouteError::InvalidDomain),
{
}

/// A request whose host does not end with the base domain is rejected as an
/// invalid domain, whatever its method and path.
pub proof fn foreign_request_is_rejected(
    cfg: Config,
    host: Seq<char>,
    method: Seq<char>,
    path: Seq<char>,
)
    requires
        !ends_with(host, cfg.base_domain),
    ensures
        cfg.routing(host, method, path) == DecisionView::Error(RouteError::InvalidDomain),
{
}

/// On the root site every method but `GET` and `HEAD` is refused, whatever
/// the path; no file is named, so none is read.
pub proof fn root_site_refuses_other_methods(cfg: Config, method: Seq<char>, path: Seq<char>)
    requires
        !is_read_method(method),
    ensures
        cfg.resolution(Seq::empty(), method, path) == DecisionView::Error(
            RouteError::MethodNotAllowed,
        ),
{
}

/// On the root site `GET` and `HEAD` name the file to read: the static root
/// followed by the path. Under hardening this holds of the paths without a
/// `..` segment.
pub proof fn root_site_serves_reads(cfg: Config, method: Seq<char>, path: Seq<char>)
    requires
        is_read_method(method),
        !(cfg.hardened && has_parent_segment(path)),
    ensures
        cfg.resolution(Seq::empty(), method, path) == DecisionView::ServeStatic(
            static_path(cfg.static_root, path),
        ),
{
}

/// Under hardening a path with a `..` segment is not found on the root
/// site, and no file is named.
pub proof fn hardening_refuses_parent_segments(cfg: Config, method: Seq<char>, path: Seq<char>)
    requires
        cfg.hardened,
        is_read_method(method),
        has_parent_segment(path),
    ensures
        cfg.resolution(Seq::empty(), method, path) == DecisionView::Error(RouteError::NotFound),
{
}

/// A path that ends with `/` names the index file of that directory.
pub proof fn directory_path_names_the_index(root: Seq<char>, path: Seq<char>)
    requires
        path.len() > 0,
        path.last() == '/',
    ensures
        static_path(root, path) == root + path + index_file(),
{
}

/// A path that does not end with `/` is kept as it is.
pub proof fn file_path_is_kept(root: Seq<char>, path: Seq<char>)
    requires
        path.len() > 0,
        path.last() != '/',
    ensures
        static_path(root, path) == root + path,
{
}

/// `GET /` on the root site serves `index.html` under the static root.
pub proof fn root_path_serves_the_index(cfg: Config)
    ensures
        cfg.resolution(Seq::empty(), "GET"@, "/"@) == DecisionView::ServeStatic(
            cfg.static_root + "/index.html"@,
        ),
{
    reveal_strlit("/");
    reveal_strlit("index.html");
    reveal_strlit("/index.html");
    let path = "/"@;
    assert(!has_parent_segment(path)) by {
        assert forall|i: int| !parent_segment_at(path, i) by {}
    }
    assert((cfg.static_root + path) + index_file() =~= cfg.static_root + "/index.html"@);
}

/// `GET /about` on the root site serves `about` under the static root, with
/// nothing appended.
pub proof fn plain_path_serves_that_file(cfg: Config)
    ensures
        cfg.resolution(Seq::empty(), "GET"@, "/about"@) == DecisionView::ServeStatic(
            cfg.static_root + "/about"@,
        ),
{
    reveal_strlit("/about");
    let path = "/about"@;
    assert(!has_parent_segment(path)) by {
        assert forall|i: int| !parent_segment_at(path, i) by {}
    }
}

/// A label that the route table holds is forwarded to exactly the backend
/// configured for it, whatever the method and the path.
pub proof fn routed_label_is_forwarded(
    cfg: Config,
    label: Seq<char>,
    method: Seq<char>,
    path: Seq<char>,
)
    requires
        label.len() > 0,
        cfg.routes.dom().contains(label),
    ensures
        cfg.resolution(label, method, path) == DecisionView::ForwardTo(cfg.routes[label]),
{
}

/// A label that the route table does not hold is not found, whatever the
/// method and the path.
pub proof fn unrouted_label_is_not_found(
    cfg: Config,
    label: Seq<char>,
    method: Seq<char>,
    path: Seq<char>,
)
    requires
        label.len() > 0,
        !cfg.routes.dom().contains(label),
    ensures
        cfg.resolution(label, method, path) == DecisionView::Error(RouteError::NotFound),
{
}

/// Resolving the same label, method and path twice under the same
/// configuration gives the same decision.
pub proof fn resolution_is_repeatable(
    cfg: Config,
    label: Seq<char>,
    method: Seq<char>,
    path: Seq<char>,
    first: DecisionView,
    second: DecisionView,
)
    requires
        first == cfg.resolution(label, method, path),
        second == cfg.resolution(label, method, path),
    ensures
        first == second,
{
}

/// Serving twice what the same read gave, under the same server name, gives
/// the same response or the same rejection.
pub proof fn serving_is_repeatable(
    server: Seq<char>,
    read: Option<Seq<u8>>,
    first: Result<StaticResponseView, RouteError>,
    second: Result<StaticResponseView, RouteError>,
)
    requires
        first == served(server, read),
        second == served(server, read),
    ensures
        first == second,
{
}

/// The request filter and the upstream choice, taken one after the other,
/// reach the decision that routing states.
pub proof fn two_steps_reach_the_routing(
    cfg: Config,
    host: Seq<char>,
    method: Seq<char>,
    path: Seq<char>,
)
    ensures
        cfg.routing(host, method, path) == match cfg.filtering(host, method, path) {
            Err(e) => DecisionView::Error(e),
            Ok(Some(file)) => DecisionView::ServeStatic(file),
            Ok(None) => match cfg.upstream(host) {
                Ok(address) => DecisionView::ForwardTo(address),
                Err(e) => DecisionView::Error(e),
            },
        },
{
}

/// A served file is answered with status 200, its own bytes, and a content
/// length that reads back as the number of those bytes.
pub proof fn response_carries_the_file(server: Seq<char>, contents: Seq<u8>)
    ensures
        file_response(server, contents).status == 200,
        file_response(server, contents).body == contents,
        file_response(server, contents).headers.len() == 3,
        file_response(server, contents).headers[1].0 == "Content-Length"@,
        crate::decimal::decimal_value(file_response(server, contents).headers[1].1)
            == contents.len(),
{
    crate::decimal::decimal_reads_back(contents.len());
}

/// A served file can be handed over to the engine exactly where the engine
/// takes the server name as a field value.
pub proof fn served_file_can_be_handed_over(server: Seq<char>, contents: Seq<u8>)
    ensures
        can_hand_over(file_response(server, contents)) <==> is_field_value(server),
{
    reveal_strlit("Server");
    reveal_strlit("Content-Length");
    reveal_strlit("Content-Type");
    reveal_strlit("text/html");
    crate::decimal::decimal_is_all_digits(contents.len());
    let headers = file_response(server, contents).headers;
    assert(headers[0].1 == server);
}

/// Handed over to the engine, a served file has exactly three fields: the
/// server name, the content length and the content type.
pub proof fn served_file_has_three_fields(server: Seq<char>, contents: Seq<u8>)
    ensures
        field_map(file_response(server, contents).headers) == no_fields().insert(
            "server"@,
            server,
        ).insert("content-length"@, crate::decimal::decimal(contents.len())).insert(
            "content-type"@,
            "text/html"@,
        ),
{
    reveal_strlit("Server");
    reveal_strlit("server");
    reveal_strlit("Content-Length");
    reveal_strlit("content-length");
    reveal_strlit("Content-Type");
    reveal_strlit("content-type");
    assert(lower_case("Server"@) =~= "server"@);
    assert(lower_case("Content-Length"@) =~= "content-length"@);
    assert(lower_case("Content-Type"@) =~= "content-type"@);
    let three = file_response(server, contents).headers;
    let two = three.drop_last();
    let one = two.drop_last();
    assert(field_map(one.drop_last()) == no_fields());
    assert(one.last() == three[0]);
    assert(field_map(one) == no_fields().insert("server"@, server));
    assert(two.last() == three[1]);
    assert(field_map(two) == field_map(one).insert(
        "content-length"@,
        crate::decimal::decimal(contents.len()),
    ));
}

} // verus!
