//! The HTTP transport: the route table, the placeholder substitution, and
//! the dispatch of a descriptor as one blocking HTTP exchange.

use crate::codec::{spec_digits, spec_parse_json, spec_ser, to_json_string, write_u64};
use crate::codec::parse_json_str;
use crate::json::{jview, JsonData, JsonValue};
use crate::protocols::protocol::Protocol;
use crate::protocols::State;
use crate::text::{chars_string, push_all, string_chars};
use crate::types::response::spec_decode_response;
use crate::types::{KuzzleOptions, KuzzleRequest, KuzzleResponse, QueryOptions, SdkError};
use vstd::prelude::*;

verus! {

/// Mathematical model of a [`Route`].
pub struct RouteData {
    pub url: Seq<char>,
    pub verb: Seq<char>,
}

/// One wire route: a URL template holding the literal placeholders
/// `:index`, `:collection` and `:strategy`, and an HTTP verb.
#[derive(Debug)]
pub struct Route {
    pub url: String,
    pub verb: String,
}

impl View for Route {
    type V = RouteData;

    open spec fn view(&self) -> RouteData {
        RouteData { url: self.url@, verb: self.verb@ }
    }
}

/// What looking up (controller, action) in a route table yields: the first
/// entry carrying both names.
pub open spec fn lookup_route(
    t: Seq<(Seq<char>, Seq<char>, RouteData)>,
    controller: Seq<char>,
    action: Seq<char>,
) -> Option<RouteData>
    decreases t.len(),
{
    if t.len() == 0 {
        None
    } else if t[0].0 == controller && t[0].1 == action {
        Some(t[0].2)
    } else {
        lookup_route(t.drop_first(), controller, action)
    }
}

/// The static mapping from (controller, action) to a wire route, loaded
/// once at transport construction and immutable thereafter.
#[derive(Debug)]
pub struct RouteTable {
    entries: Vec<(String, String, Route)>,
}

impl View for RouteTable {
    type V = Seq<(Seq<char>, Seq<char>, RouteData)>;

    closed spec fn view(&self) -> Seq<(Seq<char>, Seq<char>, RouteData)> {
        Seq::new(self.entries@.len(), |i: int| (
            self.entries@[i].0@,
            self.entries@[i].1@,
            self.entries@[i].2@,
        ))
    }
}

impl RouteTable {
    /// An empty table.
    pub fn new() -> (r: RouteTable)
        ensures
            r@ =~= Seq::<(Seq<char>, Seq<char>, RouteData)>::empty(),
    {
        RouteTable { entries: Vec::new() }
    }

    /// The table with one more entry at the end.
    pub fn add(&mut self, controller: &str, action: &str, verb: &str, url: &str)
        ensures
            final(self)@ =~= old(self)@.push(
                (controller@, action@, RouteData { url: url@, verb: verb@ }),
            ),
    {
        self.entries.push(
            (
                controller.to_owned(),
                action.to_owned(),
                Route { url: url.to_owned(), verb: verb.to_owned() },
            ),
        );
        proof {
            assert(self@ =~= old(self)@.push(
                (controller@, action@, RouteData { url: url@, verb: verb@ }),
            ));
        }
    }

    /// The route for (controller, action), or the route-not-found error
    /// carrying the pair.
    pub fn resolve(&self, controller: &str, action: &str) -> (r: Result<&Route, SdkError>)
        ensures
            match r {
                Ok(route) => lookup_route(self@, controller@, action@) == Some(route@),
                Err(e) => lookup_route(self@, controller@, action@) is None && e@
                    == (crate::types::ErrorData::RouteNotFound {
                    controller: controller@,
                    action: action@,
                }),
            },
    {
        let wanted_controller: String = controller.to_owned();
        let wanted_action: String = action.to_owned();
        let n: usize = self.entries.len();
        let mut i: usize = 0;
        proof {
            assert(self@.skip(0) =~= self@);
        }
        while i < n
            invariant
                0 <= i <= n,
                n == self.entries@.len(),
                self@.len() == n,
                wanted_controller@ == controller@,
                wanted_action@ == action@,
                forall|j: int|
                    0 <= j < n ==> self@[j] == (
                        self.entries@[j].0@,
                        self.entries@[j].1@,
                        self.entries@[j].2@,
                    ),
                lookup_route(self@, controller@, action@) == lookup_route(
                    self@.skip(i as int),
                    controller@,
                    action@,
                ),
            decreases n - i,
        {
            if self.entries[i].0.eq(&wanted_controller) && self.entries[i].1.eq(&wanted_action) {
                proof {
                    assert(self@.skip(i as int)[0] == self@[i as int]);
                }
                return Ok(&self.entries[i].2);
            }
            proof {
                assert(self@.skip(i as int)[0] == self@[i as int]);
                assert(self@.skip(i as int).drop_first() =~= self@.skip(i + 1));
            }
            i = i + 1;
        }
        proof {
            assert(self@.skip(n as int).len() == 0);
        }
        Err(
            SdkError::RouteNotFound {
                controller: wanted_controller,
                action: wanted_action,
            },
        )
    }

    /// The routes of the server's HTTP API that this library's operations
    /// dispatch through.
    pub fn standard() -> (r: RouteTable)
        ensures
            r@ == standard_routes(),
    {
        let mut t = RouteTable::new();
        t.add("auth", "checkToken", "POST", "/_checkToken");
        t.add("auth", "createMyCredentials", "POST", "/credentials/:strategy/_me/_create");
        t.add("auth", "credentialsExist", "GET", "/credentials/:strategy/_me/_exists");
        t.add("auth", "deleteMyCredentials", "DELETE", "/credentials/:strategy/_me");
        t.add("auth", "getCurrentUser", "GET", "/users/_me");
        t.add("auth", "getMyCredentials", "GET", "/credentials/:strategy/_me");
        t.add("auth", "getMyRights", "GET", "/users/_me/_rights");
        t.add("auth", "getStrategies", "GET", "/strategies");
        t.add("auth", "login", "POST", "/_login/:strategy");
        t.add("auth", "logout", "POST", "/_logout");
        t.add("auth", "updateMyCredentials", "PUT", "/credentials/:strategy/_me/_update");
        t.add("server", "now", "GET", "/_now");
        t.add("document", "create", "POST", "/:index/:collection/_create");
        t.add("collection", "create", "PUT", "/:index/:collection");
        t.add("bulk", "import", "POST", "/:index/:collection/_bulk");
        proof {
            assert(t@ =~= standard_routes());
        }
        t
    }
}

/// The entries of the standard route table, in order.
pub open spec fn standard_routes() -> Seq<(Seq<char>, Seq<char>, RouteData)> {
    seq![
        ("auth"@, "checkToken"@, RouteData { url: "/_checkToken"@, verb: "POST"@ }),
        (
            "auth"@,
            "createMyCredentials"@,
            RouteData { url: "/credentials/:strategy/_me/_create"@, verb: "POST"@ },
        ),
        (
            "auth"@,
            "credentialsExist"@,
            RouteData { url: "/credentials/:strategy/_me/_exists"@, verb: "GET"@ },
        ),
        (
            "auth"@,
            "deleteMyCredentials"@,
            RouteData { url: "/credentials/:strategy/_me"@, verb: "DELETE"@ },
        ),
        ("auth"@, "getCurrentUser"@, RouteData { url: "/users/_me"@, verb: "GET"@ }),
        ("auth"@, "getMyCredentials"@, RouteData { url: "/credentials/:strategy/_me"@, verb: "GET"@ }),
        ("auth"@, "getMyRights"@, RouteData { url: "/users/_me/_rights"@, verb: "GET"@ }),
        ("auth"@, "getStrategies"@, RouteData { url: "/strategies"@, verb: "GET"@ }),
        ("auth"@, "login"@, RouteData { url: "/_login/:strategy"@, verb: "POST"@ }),
        ("auth"@, "logout"@, RouteData { url: "/_logout"@, verb: "POST"@ }),
        (
            "auth"@,
            "updateMyCredentials"@,
            RouteData { url: "/credentials/:strategy/_me/_update"@, verb: "PUT"@ },
        ),
        ("server"@, "now"@, RouteData { url: "/_now"@, verb: "GET"@ }),
        ("document"@, "create"@, RouteData { url: "/:index/:collection/_create"@, verb: "POST"@ }),
        ("collection"@, "create"@, RouteData { url: "/:index/:collection"@, verb: "PUT"@ }),
        ("bulk"@, "import"@, RouteData { url: "/:index/:collection/_bulk"@, verb: "POST"@ }),
    ]
}

/// `haystack` with every non-overlapping occurrence of `needle` replaced by
/// `instead`, scanning left to right; an empty needle replaces nothing.
pub open spec fn spec_replace(
    haystack: Seq<char>,
    needle: Seq<char>,
    instead: Seq<char>,
) -> Seq<char>
    decreases haystack.len(),
{
    if needle.len() == 0 || haystack.len() < needle.len() {
        haystack
    } else if haystack.subrange(0, needle.len() as int) == needle {
        instead + spec_replace(haystack.skip(needle.len() as int), needle, instead)
    } else {
        seq![haystack[0]] + spec_replace(haystack.drop_first(), needle, instead)
    }
}

/// True when `needle` stands at `at` in `haystack`.
fn matches_at(haystack: &Vec<char>, needle: &Vec<char>, at: usize) -> (r: bool)
    requires
        at + needle@.len() <= haystack@.len(),
    ensures
        r <==> haystack@.subrange(at as int, at as int + needle@.len()) == needle@,
{
    let hn: usize = haystack.len();
    let m: usize = needle.len();
    let mut k: usize = 0;
    while k < m
        invariant
            0 <= k <= m,
            m == needle@.len(),
            hn == haystack@.len(),
            at + m <= hn,
            forall|j: int|
                0 <= j < k ==> haystack@.subrange(at as int, at as int + m as int)[j] == needle@[j],
        decreases m - k,
    {
        if haystack[at + k] != needle[k] {
            proof {
                assert(haystack@.subrange(at as int, at as int + m as int)[k as int] == haystack@[at
                    + k]);
            }
            return false;
        }
        proof {
            assert(haystack@.subrange(at as int, at as int + m as int)[k as int] == haystack@[at
                + k]);
        }
        k = k + 1;
    }
    proof {
        assert(haystack@.subrange(at as int, at as int + m as int) =~= needle@);
    }
    true
}

/// Replaces every occurrence of `needle`, as [`spec_replace`] says.
fn replace_chars(haystack: &Vec<char>, needle: &Vec<char>, instead: &Vec<char>) -> (r: Vec<char>)
    ensures
        r@ == spec_replace(haystack@, needle@, instead@),
{
    let n: usize = haystack.len();
    let m: usize = needle.len();
    let mut out: Vec<char> = Vec::new();
    let mut i: usize = 0;
    if m == 0 {
        push_all(&mut out, haystack);
        proof {
            assert(Seq::<char>::empty() + haystack@ =~= haystack@);
        }
        return out;
    }
    proof {
        assert(haystack@.skip(0) =~= haystack@);
    }
    loop
        invariant
            0 <= i <= n,
            n == haystack@.len(),
            m == needle@.len(),
            m > 0,
            spec_replace(haystack@, needle@, instead@) == out@ + spec_replace(
                haystack@.skip(i as int),
                needle@,
                instead@,
            ),
        decreases n - i,
    {
        if i >= n {
            proof {
                assert(haystack@.skip(i as int).len() == 0);
                assert(out@ + haystack@.skip(i as int) =~= out@);
            }
            return out;
        }
        let matched: bool = if n - i >= m {
            matches_at(haystack, needle, i)
        } else {
            false
        };
        let ghost rest = haystack@.skip(i as int);
        if matched {
            let ghost out_prev = out@;
            push_all(&mut out, instead);
            proof {
                assert(rest.subrange(0, m as int) =~= haystack@.subrange(
                    i as int,
                    i as int + m as int,
                ));
                assert(rest.skip(m as int) =~= haystack@.skip(i as int + m as int));
                assert(spec_replace(rest, needle@, instead@) == instead@ + spec_replace(
                    haystack@.skip(i as int + m as int),
                    needle@,
                    instead@,
                ));
                assert(out_prev + (instead@ + spec_replace(
                    haystack@.skip(i as int + m as int),
                    needle@,
                    instead@,
                )) =~= out@ + spec_replace(haystack@.skip(i as int + m as int), needle@, instead@));
            }
            i = i + m;
        } else {
            let ghost out_prev = out@;
            out.push(haystack[i]);
            proof {
                if rest.len() >= m {
                    assert(rest.subrange(0, m as int) =~= haystack@.subrange(
                        i as int,
                        i as int + m as int,
                    ));
                }
                assert(rest[0] == haystack@[i as int]);
                assert(rest.drop_first() =~= haystack@.skip(i as int + 1));
                assert(spec_replace(rest, needle@, instead@) == seq![haystack@[i as int]]
                    + spec_replace(haystack@.skip(i as int + 1), needle@, instead@));
                assert(out_prev + (seq![haystack@[i as int]] + spec_replace(
                    haystack@.skip(i as int + 1),
                    needle@,
                    instead@,
                )) =~= out@ + spec_replace(haystack@.skip(i as int + 1), needle@, instead@));
            }
            i = i + 1;
        }
    }
}

/// The route template with its placeholders substituted: `:index`,
/// `:collection` and `:strategy` each replaced by the descriptor's
/// corresponding field, the empty string when unset.
pub open spec fn spec_resolved_path(
    url: Seq<char>,
    index: Seq<char>,
    collection: Seq<char>,
    strategy: Seq<char>,
) -> Seq<char> {
    spec_replace(
        spec_replace(spec_replace(url, ":index"@, index), ":collection"@, collection),
        ":strategy"@,
        strategy,
    )
}

/// Substitutes the placeholders of a route template.
pub fn resolve_path(url: &str, index: &str, collection: &str, strategy: &str) -> (r: Vec<char>)
    ensures
        r@ == spec_resolved_path(url@, index@, collection@, strategy@),
{
    let url_chars: Vec<char> = string_chars(url);
    let step1: Vec<char> = replace_chars(&url_chars, &string_chars(":index"), &string_chars(index));
    let step2: Vec<char> = replace_chars(
        &step1,
        &string_chars(":collection"),
        &string_chars(collection),
    );
    replace_chars(&step2, &string_chars(":strategy"), &string_chars(strategy))
}

/// The full request URL: scheme, host, port and resolved path.
pub open spec fn spec_url(host: Seq<char>, port: u16, path: Seq<char>) -> Seq<char> {
    "http://"@ + host + ":"@ + spec_digits(port as nat) + path
}

/// Builds the full request URL.
fn build_url(host: &str, port: u16, path: &Vec<char>) -> (r: String)
    ensures
        r@ == spec_url(host@, port, path@),
{
    let mut out: Vec<char> = string_chars("http://");
    push_all(&mut out, &string_chars(host));
    push_all(&mut out, &string_chars(":"));
    write_u64(port as u64, &mut out);
    push_all(&mut out, path);
    chars_string(&out)
}

/// Mathematical model of an [`Http`] transport.
pub struct HttpData {
    pub host: Seq<char>,
    pub port: u16,
    pub routes: Seq<(Seq<char>, Seq<char>, RouteData)>,
    pub ready: bool,
}

/// The HTTP transport: dials the configured host and port, resolves each
/// descriptor through its route table, and performs one blocking exchange
/// per send.
#[derive(Debug)]
pub struct Http {
    options: KuzzleOptions,
    routes: RouteTable,
    state: State,
}

impl View for Http {
    type V = HttpData;

    closed spec fn view(&self) -> HttpData {
        HttpData {
            host: self.options@.host,
            port: self.options@.port,
            routes: self.routes@,
            ready: self.state == State::Ready,
        }
    }
}

/// Relies on reqwest: `Method::from_bytes` for the verb, a blocking
/// `Client` with its `request`, `header`, `body`, `query` and `bearer_auth`
/// builders for the parts handed in, `send` for the exchange, and
/// `Response::text` for the reply body. Nothing is assumed of the reply:
/// the caller decodes whatever text came back, and any failure is handed
/// back as the error's description.
#[verifier::external_body]
fn http_exchange(
    method: &str,
    url: &str,
    body: Option<&String>,
    query: Option<&Vec<(String, String)>>,
    bearer: Option<&String>,
) -> Result<String, String> {
    let m = match reqwest::Method::from_bytes(method.as_bytes()) { Ok(m) => m, Err(e) => return Err(e.to_string()) };
    let mut rb = reqwest::blocking::Client::new().request(m, url);
    match body { Some(b) => rb = rb.header("content-type", "application/json").body(b.clone()), None => {} }
    match query { Some(q) => rb = rb.query(q), None => {} }
    match bearer { Some(t) => rb = rb.bearer_auth(t), None => {} }
    match rb.send() { Ok(resp) => resp.text().map_err(|e| e.to_string()), Err(e) => Err(e.to_string()) }
}

/// Relies on reqwest::blocking::get: one GET request, used only as a
/// reachability probe. Nothing is assumed of the reply; any failure is
/// handed back as the error's description.
#[verifier::external_body]
fn http_probe(url: &str) -> Result<(), String> {
    match reqwest::blocking::get(url) {
        Ok(_) => Ok(()),
        Err(e) => Err(e.to_string()),
    }
}

/// The text a query parameter value is sent as: a string's own content,
/// any other value's canonical rendering.
pub open spec fn spec_query_text(d: JsonData) -> Seq<char> {
    match d {
        JsonData::Str(s) => s,
        _ => spec_ser(d),
    }
}

/// Renders the descriptor's query parameters as text pairs.
fn query_pairs(req: &KuzzleRequest) -> (r: Vec<(String, String)>)
    ensures
        r@.len() == req@.query_strings.len(),
        forall|i: int|
            0 <= i < r@.len() ==> (r@[i].0@, r@[i].1@) == (
                req@.query_strings[i].0,
                spec_query_text(req@.query_strings[i].1),
            ),
{
    let entries: &Vec<(String, JsonValue)> = req.query_strings().entries();
    let n: usize = entries.len();
    let mut out: Vec<(String, String)> = Vec::new();
    let mut i: usize = 0;
    while i < n
        invariant
            0 <= i <= n,
            n == entries@.len(),
            req@.query_strings.len() == n,
            forall|j: int|
                0 <= j < n ==> req@.query_strings[j] == (entries@[j].0@, jview(entries@[j].1)),
            out@.len() == i,
            forall|j: int|
                0 <= j < i ==> (out@[j].0@, out@[j].1@) == (
                    req@.query_strings[j].0,
                    spec_query_text(req@.query_strings[j].1),
                ),
        decreases n - i,
    {
        let text: String = match &entries[i].1 {
            JsonValue::Str(s) => s.clone(),
            other => to_json_string(other),
        };
        out.push((entries[i].0.clone(), text));
        i = i + 1;
    }
    out
}

impl Http {
    /// An HTTP transport for the given host and port, dispatching through
    /// the given route table. The table is an injected dependency: loading
    /// it from a declarative resource is its caller's concern.
    pub fn new(options: KuzzleOptions, routes: RouteTable) -> (r: Http)
        ensures
            r@.host == options@.host,
            r@.port == options@.port,
            r@.routes == routes@,
            !r@.ready,
    {
        Http { options, routes, state: State::Offline }
    }

    /// Pure state query.
    pub fn is_ready(&self) -> (r: bool)
        ensures
            r == self@.ready,
    {
        match self.state {
            State::Ready => true,
            State::Offline => false,
        }
    }

    /// Unconditionally transitions to `Offline`. Idempotent.
    pub fn close(&mut self)
        ensures
            final(self)@ == (HttpData { ready: false, ..old(self)@ }),
    {
        self.state = State::Offline;
    }

    /// Idempotent connect: already `Ready` returns success with no probe;
    /// otherwise one reachability probe decides, and on failure the
    /// transport stays as it was.
    pub fn connect(&mut self) -> (r: Result<(), SdkError>)
        ensures
            old(self)@.ready ==> (r matches Ok(()) && *final(self) == *old(self)),
            r matches Ok(()) ==> final(self)@ == (HttpData { ready: true, ..old(self)@ }),
            r matches Err(e) ==> *final(self) == *old(self) && e@ is Network,
    {
        if self.is_ready() {
            return Ok(());
        }
        let empty_path: Vec<char> = Vec::new();
        let url: String = build_url(self.options.host().as_str(), self.options.port(), &empty_path);
        match http_probe(url.as_str()) {
            Ok(()) => {
                self.state = State::Ready;
                Ok(())
            },
            Err(message) => Err(SdkError::Network { message }),
        }
    }

    /// Dispatches one descriptor: fails with transport-not-ready while
    /// `Offline`; resolves the route, failing with route-not-found when the
    /// table has no entry; substitutes the placeholders; performs the
    /// exchange; and decodes the reply into the envelope. Whatever the
    /// network and the server answer, a success is a faithfully decoded
    /// envelope of a well-formed JSON reply.
    pub fn send(&self, req: KuzzleRequest, options: QueryOptions) -> (r: Result<
        KuzzleResponse,
        SdkError,
    >)
        ensures
            !self@.ready ==> (r matches Err(e) && e@ is NotReady),
            (r matches Err(e) && e@ is NotReady) ==> !self@.ready,
            self@.ready && lookup_route(self@.routes, req@.controller, req@.action) is None ==> (
            r matches Err(e) && e@ == (crate::types::ErrorData::RouteNotFound {
                controller: req@.controller,
                action: req@.action,
            })),
            (r matches Err(e) && e@ is RouteNotFound) ==> lookup_route(
                self@.routes,
                req@.controller,
                req@.action,
            ) is None,
            r matches Err(e) ==> e@ is NotReady || e@ is RouteNotFound || e@ is Network || e@
                is Decode,
            r matches Ok(resp) ==> exists|reply: Seq<char>|
                {
                    &&& #[trigger] spec_parse_json(reply) matches Some(d)
                    &&& spec_decode_response(d) == Some(resp@)
                },
    {
        if !self.is_ready() {
            return Err(SdkError::NotReady);
        }
        let route: &Route = match self.routes.resolve(req.controller().as_str(), req.action().as_str()) {
            Ok(route) => route,
            Err(e) => {
                return Err(e);
            },
        };
        let index: String = req.index();
        let collection: String = req.collection();
        let strategy: String = req.strategy();
        let path: Vec<char> = resolve_path(
            route.url.as_str(),
            index.as_str(),
            collection.as_str(),
            strategy.as_str(),
        );
        let url: String = build_url(self.options.host().as_str(), self.options.port(), &path);
        let body_text: Option<String> = if req.body().is_empty() {
            None
        } else {
            Some(to_json_string(&JsonValue::Obj(req.body().duplicate())))
        };
        let pairs: Vec<(String, String)> = query_pairs(&req);
        let jwt: String = req.jwt();
        let reply: String = match http_exchange(
            route.verb.as_str(),
            url.as_str(),
            match &body_text {
                Some(b) => Some(b),
                None => None,
            },
            if pairs.len() == 0 {
                None
            } else {
                Some(&pairs)
            },
            if jwt.as_str().is_empty() {
                None
            } else {
                Some(&jwt)
            },
        ) {
            Ok(t) => t,
            Err(message) => {
                return Err(SdkError::Network { message });
            },
        };
        let parsed: JsonValue = match parse_json_str(reply.as_str()) {
            Some(v) => v,
            None => {
                return Err(
                    SdkError::Decode {
                        message: "the reply is not well-formed JSON text".to_owned(),
                    },
                );
            },
        };
        match KuzzleResponse::from_json(&parsed) {
            Ok(resp) => {
                proof {
                    let ghost witness = reply@;
                    assert(spec_parse_json(witness) matches Some(d) && spec_decode_response(d)
                        == Some(resp@));
                }
                Ok(resp)
            },
            Err(e) => Err(e),
        }
    }

    /// An event-subscription capability the HTTP variant does not offer.
    pub fn once(&self) -> (r: Result<(), SdkError>)
        ensures
            r matches Err(e) && e@ is Unsupported,
    {
        Err(SdkError::Unsupported { context: "Http::once".to_owned() })
    }

    /// An event-subscription capability the HTTP variant does not offer.
    pub fn listener_count(&self) -> (r: Result<(), SdkError>)
        ensures
            r matches Err(e) && e@ is Unsupported,
    {
        Err(SdkError::Unsupported { context: "Http::listener_count".to_owned() })
    }
}

impl Protocol for Http {
    open spec fn ready(&self) -> bool {
        self@.ready
    }

    fn once(&self) -> (r: Result<(), SdkError>) {
        Http::once(self)
    }

    fn listener_count(&self) -> (r: Result<(), SdkError>) {
        Http::listener_count(self)
    }

    fn connect(&mut self) -> (r: Result<(), SdkError>) {
        Http::connect(self)
    }

    fn send(&self, req: KuzzleRequest, options: QueryOptions) -> (r: Result<
        KuzzleResponse,
        SdkError,
    >) {
        Http::send(self, req, options)
    }

    fn close(&mut self) {
        Http::close(self)
    }

    fn is_ready(&self) -> (r: bool) {
        Http::is_ready(self)
    }
}

} // verus!
