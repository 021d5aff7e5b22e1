//! The development server's decisions: dispatching a request to a proxy
//! rule or to static serving, resolving a path in the output tree, and the
//! single-page-app fallback that substitutes the root document for any
//! not-found response. The network edge performs what is decided here.

use vstd::prelude::*;
use vstd::string::*;

use crate::bus::Subscriber;
use crate::bytes::{
    bytes_eq,
    concat_bytes,
    ends_with,
    find_first,
    is_prefix_of,
    is_suffix_of,
    match_at,
    starts_with,
    suffix_from,
};
use crate::config::{effective_rules, rule_matches, target_url, ServeConfig};

verus! {

/// An HTTP response as the server's logic sees it: a status code, whether
/// the body is served as HTML, and the body bytes.
pub struct Response {
    pub status: u16,
    pub html: bool,
    pub body: Vec<u8>,
}

/// The content of a response.
pub struct ResponseV {
    pub status: int,
    pub html: bool,
    pub body: Seq<u8>,
}

/// What a response says, with the body reduced to its bytes.
pub open spec fn response_view(r: Response) -> ResponseV {
    ResponseV { status: r.status as int, html: r.html, body: r.body@ }
}

/// One file of the output tree: its path relative to the output directory
/// root, and its bytes.
pub struct StaticFile {
    pub path: Vec<u8>,
    pub body: Vec<u8>,
}

/// The server's view of the output directory.
pub struct OutputTree {
    pub files: Vec<StaticFile>,
}

/// Per-request server state: the path of the fallback document and the
/// receive handle on the build event bus.
pub struct State {
    pub index: Vec<u8>,
    pub build_event_rx: Subscriber,
}

/// A path in the output tree equal to `p`.
pub open spec fn found(files: Seq<StaticFile>, p: Seq<u8>) -> bool {
    exists|i: int| 0 <= i < files.len() && files[i].path@ == p
}

/// The bytes of the first file at path `p` (empty when there is none).
pub open spec fn body_of(files: Seq<StaticFile>, p: Seq<u8>) -> Seq<u8>
    decreases files.len(),
{
    if files.len() == 0 {
        Seq::empty()
    } else if files[0].path@ == p {
        files[0].body@
    } else {
        body_of(files.drop_first(), p)
    }
}

/// A relative path that steps outside the tree root.
pub open spec fn has_traversal(p: Seq<u8>) -> bool {
    exists|i: int| match_at(p, "..".spec_bytes(), i)
}

/// Whether a path is served with an HTML content type.
pub open spec fn mime_is_html(p: Seq<u8>) -> bool {
    is_suffix_of(".html".spec_bytes(), p)
}

/// What plain static resolution answers, before the fallback wrapper:
/// a request outside the public URL prefix, a traversal attempt, or a
/// missing file is not found; anything else is the file's bytes.
pub open spec fn spec_static(
    files: Seq<StaticFile>,
    public_url: Seq<u8>,
    path: Seq<u8>,
) -> ResponseV {
    if is_prefix_of(public_url, path) {
        let rel = path.skip(public_url.len() as int);
        if has_traversal(rel) {
            ResponseV { status: 404, html: false, body: Seq::empty() }
        } else if found(files, rel) {
            ResponseV { status: 200, html: mime_is_html(rel), body: body_of(files, rel) }
        } else {
            ResponseV { status: 404, html: false, body: Seq::empty() }
        }
    } else {
        ResponseV { status: 404, html: false, body: Seq::empty() }
    }
}

/// The single-page-app fallback: a not-found answer becomes the root
/// document, served successfully as HTML; every other answer passes
/// through unchanged.
pub open spec fn spec_fallback(inner: ResponseV, index_body: Seq<u8>) -> ResponseV {
    if inner.status == 404 {
        ResponseV { status: 200, html: true, body: index_body }
    } else {
        inner
    }
}

/// What the server answers for a request it serves itself.
pub open spec fn spec_serve(
    files: Seq<StaticFile>,
    public_url: Seq<u8>,
    index_body: Seq<u8>,
    path: Seq<u8>,
) -> ResponseV {
    spec_fallback(spec_static(files, public_url, path), index_body)
}

impl OutputTree {
    /// Look a relative path up in the tree: the first file whose path is
    /// equal wins.
    #[verifier::loop_isolation(false)]
    pub fn resolve(&self, rel: &Vec<u8>) -> (r: Option<Vec<u8>>)
        ensures
            match r {
                Some(b) => found(self.files@, rel@) && b@ == body_of(self.files@, rel@),
                None => !found(self.files@, rel@),
            },
    {
        let files = &self.files;
        let n = files.len();
        proof {
            assert(files@.skip(0) =~= files@);
        }
        let mut i: usize = 0;
        while i < n
            invariant
                i <= n,
                forall|j: int| 0 <= j < i ==> files@[j].path@ != rel@,
                body_of(files@, rel@) == body_of(files@.skip(i as int), rel@),
            decreases n - i,
        {
            proof {
                assert(files@.skip(i as int)[0] == files@[i as int]);
            }
            if bytes_eq(&files[i].path, rel) {
                proof {
                    assert(body_of(files@.skip(i as int), rel@) == files@[i as int].body@);
                    assert(0 <= i < files@.len() && files@[i as int].path@ == rel@);
                }
                let b = suffix_from(&files[i].body, 0);
                proof {
                    assert(b@ =~= files@[i as int].body@);
                }
                return Some(b);
            }
            proof {
                assert(files@.skip(i as int).drop_first() =~= files@.skip(i + 1));
            }
            i += 1;
        }
        proof {
            if found(files@, rel@) {
                let w = choose|w: int| 0 <= w < files@.len() && files@[w].path@ == rel@;
                assert(files@[w].path@ != rel@);
            }
        }
        None
    }
}

/// The tree a successful build places under the output directory: exactly
/// one root document, under its fixed name, holding the finished
/// document's bytes.
pub fn built_tree(doc: crate::document::HtmlDocument) -> (t: OutputTree)
    ensures
        t.files@.len() == 1,
        t.files@[0].path@ == "index.html".spec_bytes(),
        t.files@[0].body@ == doc@,
{
    let path = ("index.html").as_bytes_vec();
    let mut files: Vec<StaticFile> = Vec::new();
    files.push(StaticFile { path, body: doc.bytes });
    OutputTree { files }
}

/// Serve a request from the output tree alone: reject paths outside the
/// public URL prefix and traversal attempts, else hand out the resolved
/// file's bytes.
pub fn serve_static(tree: &OutputTree, public_url: &Vec<u8>, path: &Vec<u8>) -> (r: Response)
    ensures
        response_view(r) == spec_static(tree.files@, public_url@, path@),
{
    if !starts_with(path, public_url) {
        return Response { status: 404, html: false, body: Vec::new() };
    }
    let rel = suffix_from(path, public_url.len());
    proof {
        assert(rel@ =~= path@.skip(public_url@.len() as int));
    }
    let dots = ("..").as_bytes_vec();
    match find_first(&rel, &dots) {
        Some(_i) => {
            proof {
                assert(has_traversal(rel@));
            }
            Response { status: 404, html: false, body: Vec::new() }
        },
        None => {
            proof {
                assert(!has_traversal(rel@));
            }
            match tree.resolve(&rel) {
                Some(body) => {
                    let html = {
                        let ext = (".html").as_bytes_vec();
                        ends_with(&rel, &ext)
                    };
                    Response { status: 200, html, body }
                },
                None => Response { status: 404, html: false, body: Vec::new() },
            }
        },
    }
}

/// The response-rewriting wrapper around every request: only a not-found
/// answer is replaced by the root document's bytes with success status and
/// HTML content type; every other status passes through unchanged.
pub fn index_fallback(res: Response, index_body: &Vec<u8>) -> (r: Response)
    ensures
        response_view(r) == spec_fallback(response_view(res), index_body@),
{
    if res.status == 404 {
        let body = suffix_from(index_body, 0);
        proof {
            assert(body@ =~= index_body@);
        }
        Response { status: 200, html: true, body }
    } else {
        res
    }
}

/// Serve a request end to end: static resolution wrapped by the fallback.
pub fn handle_request(
    tree: &OutputTree,
    public_url: &Vec<u8>,
    index_body: &Vec<u8>,
    path: &Vec<u8>,
) -> (r: Response)
    ensures
        response_view(r) == spec_serve(tree.files@, public_url@, index_body@, path@),
{
    let inner = serve_static(tree, public_url, path);
    index_fallback(inner, index_body)
}

/// Law: a request path that resolves to no file in the output tree is
/// answered with the fallback document, success status and HTML content
/// type; a path that does resolve is answered with that file's bytes
/// unmodified and success status.
pub proof fn lemma_spa_fallback(
    files: Seq<StaticFile>,
    public_url: Seq<u8>,
    index_body: Seq<u8>,
    path: Seq<u8>,
)
    ensures
        ({
            let rel = path.skip(public_url.len() as int);
            (is_prefix_of(public_url, path) && !has_traversal(rel) && found(files, rel))
                ==> spec_serve(files, public_url, index_body, path) == (ResponseV {
                status: 200,
                html: mime_is_html(rel),
                body: body_of(files, rel),
            })
        }),
        ({
            let rel = path.skip(public_url.len() as int);
            !(is_prefix_of(public_url, path) && !has_traversal(rel) && found(files, rel))
                ==> spec_serve(files, public_url, index_body, path) == (ResponseV {
                status: 200,
                html: true,
                body: index_body,
            })
        }),
{
}

/// Where a request goes: to a proxy rule's backend, or to the server's
/// own static-and-fallback serving.
pub enum RouteDecision {
    Forward { rule: usize, target: Vec<u8> },
    Serve,
}

/// Decide a request's route: the first proxy rule that claims the path
/// wins, with the single-backend rule ahead of the rule list; a path no
/// rule claims is served by the server itself, never forwarded.
#[verifier::loop_isolation(false)]
pub fn dispatch(cfg: &ServeConfig, path: &Vec<u8>) -> (r: RouteDecision)
    ensures
        match r {
            RouteDecision::Forward { rule, target } => 0 <= rule < effective_rules(*cfg).len()
                && rule_matches(effective_rules(*cfg)[rule as int], path@) && target@
                == target_url(effective_rules(*cfg)[rule as int], path@) && forall|j: int|
                0 <= j < rule ==> !rule_matches(effective_rules(*cfg)[j], path@),
            RouteDecision::Serve => forall|j: int|
                0 <= j < effective_rules(*cfg).len() ==> !rule_matches(
                    effective_rules(*cfg)[j],
                    path@,
                ),
        },
{
    let ghost rules = effective_rules(*cfg);
    let mut offset: usize = 0;
    match &cfg.proxy_backend {
        Some(first) => {
            proof {
                assert(rules[0] == cfg.proxy_backend->Some_0);
            }
            if first.matches(path) {
                let target = first.target(path);
                return RouteDecision::Forward { rule: 0, target };
            }
            offset = 1;
        },
        None => {},
    }
    let n = cfg.proxies.len();
    let mut i: usize = 0;
    while i < n
        invariant
            n == cfg.proxies@.len(),
            offset == (if cfg.proxy_backend is Some {
                1int
            } else {
                0int
            }),
            rules == effective_rules(*cfg),
            rules.len() == n + offset,
            i <= n,
            forall|j: int| 0 <= j < i + offset ==> !rule_matches(rules[j], path@),
        decreases n - i,
    {
        proof {
            assert(rules[i + offset] == cfg.proxies@[i as int]);
        }
        if cfg.proxies[i].matches(path) {
            let target = cfg.proxies[i].target(path);
            return RouteDecision::Forward { rule: i + offset, target };
        }
        i += 1;
    }
    RouteDecision::Serve
}

/// The decimal digits of a number, most significant first.
pub open spec fn dec_digits(n: nat) -> Seq<u8>
    decreases n,
{
    if n < 10 {
        seq![(48 + n) as u8]
    } else {
        dec_digits((n / 10) as nat).push((48 + n % 10) as u8)
    }
}

/// Format a port number in decimal.
pub fn format_port(n: u16) -> (r: Vec<u8>)
    ensures
        r@ == dec_digits(n as nat),
    decreases n,
{
    if n < 10 {
        let mut v: Vec<u8> = Vec::new();
        v.push(48 + n as u8);
        proof {
            assert(v@ =~= dec_digits(n as nat));
        }
        v
    } else {
        let mut v = format_port(n / 10);
        v.push(48 + (n % 10) as u8);
        v
    }
}

/// The address the server's socket binds.
pub fn listen_addr(port: u16) -> (r: Vec<u8>)
    ensures
        r@ == "0.0.0.0:".spec_bytes() + dec_digits(port as nat),
{
    let head = ("0.0.0.0:").as_bytes_vec();
    let digits = format_port(port);
    concat_bytes(&head, &digits)
}

/// The externally reachable URL of the served application root.
pub fn http_addr(port: u16, public_url: &Vec<u8>) -> (r: Vec<u8>)
    ensures
        r@ == "http://127.0.0.1:".spec_bytes() + dec_digits(port as nat) + public_url@,
{
    let head = ("http://127.0.0.1:").as_bytes_vec();
    let digits = format_port(port);
    let hp = concat_bytes(&head, &digits);
    concat_bytes(&hp, public_url)
}

} // verus!
