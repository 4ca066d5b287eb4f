//! The client: the service's address and bearer token, and one method per
//! endpoint, each of which writes down the request that the endpoint takes.
use vstd::prelude::*;
use crate::date::{date_text, Date};
use crate::dispatch::{
    assembled, lemma_form_plain, opt_text, pairs_view, query_pair, query_text, Expect, HttpRequest,
    Method, TransportError,
};
use crate::json::{member, members_of, object_json, object_text, push_member, JsonObject};
use crate::request::{NewBilling, NewItem, NewPartner, UpdateBilling, UpdateItem, UpdateOffice, UpdatePartner};
use crate::text::{decimal, decimal_text, joined};

verus! {

/// The URL that a path resolves to against a base URL, if both are well formed.
pub uninterp spec fn resolved_url(base: Seq<char>, path: Seq<char>) -> Option<Seq<char>>;

/// Relies on `url::Url::parse` for the base and `Url::join` for the path: the
/// URL that the path resolves to, as its text, or `None` where either fails.
#[verifier::external_body]
fn resolve_url(base: &str, path: &str) -> (r: Option<String>)
    ensures
        opt_text(r) == resolved_url(base@, path@),
{
    match url::Url::parse(base) {
        Ok(b) => b.join(path).ok().map(String::from),
        Err(_) => None,
    }
}

/// The JSON object `{"key":inner}`.
pub open spec fn enveloped(key: Seq<char>, inner: Seq<char>) -> Seq<char> {
    object_text(seq![member(key, inner)])
}

/// The `page` and `per_page` parameters of a listing.
pub open spec fn paging_params(page: u32, per_page: u32) -> Seq<(Seq<char>, Seq<char>)> {
    seq![("page"@, decimal(page as nat)), ("per_page"@, decimal(per_page as nat))]
}

/// One parameter when its value is given, none when it is not.
pub open spec fn opt_param(key: Seq<char>, value: Option<Seq<char>>) -> Seq<(Seq<char>, Seq<char>)> {
    match value {
        Some(v) => seq![(key, v)],
        None => Seq::empty(),
    }
}

/// The text of an optional date, when it is given.
pub open spec fn opt_date_text(d: Option<Date>) -> Option<Seq<char>> {
    match d {
        Some(d) => Some(date_text(d@.0, d@.1, d@.2)),
        None => None,
    }
}

/// The parameters of a billing search: paging and query, then each of the
/// range key and the two dates that is given.
pub open spec fn search_params(
    page: u32,
    per_page: u32,
    q: Seq<char>,
    range_key: Option<Seq<char>>,
    from: Option<Date>,
    to: Option<Date>,
) -> Seq<(Seq<char>, Seq<char>)> {
    paging_params(page, per_page).push(("q"@, q))
        + opt_param("range_key"@, range_key)
        + opt_param("from"@, opt_date_text(from))
        + opt_param("to"@, opt_date_text(to))
}

/// A search given only paging and a query sends exactly `page`, `per_page`
/// and `q`, in that order: no `range_key`, `from` or `to` parameter appears.
pub proof fn lemma_search_omits_unset(page: u32, per_page: u32, q: Seq<char>)
    ensures
        search_params(page, per_page, q, None, None, None) == seq![
            ("page"@, decimal(page as nat)),
            ("per_page"@, decimal(per_page as nat)),
            ("q"@, q),
        ],
        forall|i: int|
            0 <= i < 3 ==> {
                let key = #[trigger] search_params(page, per_page, q, None, None, None)[i].0;
                key != "range_key"@ && key != "from"@ && key != "to"@
            },
{
    let ps = search_params(page, per_page, q, None, None, None);
    assert(ps =~= seq![
        ("page"@, decimal(page as nat)),
        ("per_page"@, decimal(per_page as nat)),
        ("q"@, q),
    ]);
    reveal_strlit("page");
    reveal_strlit("per_page");
    reveal_strlit("q");
    reveal_strlit("range_key");
    reveal_strlit("from");
    reveal_strlit("to");
    assert("page"@[0] != "from"@[0]);
    assert("page"@.len() != "range_key"@.len() && "page"@.len() != "to"@.len());
    assert("per_page"@.len() != "range_key"@.len() && "per_page"@.len() != "from"@.len()
        && "per_page"@.len() != "to"@.len());
    assert("q"@.len() != "range_key"@.len() && "q"@.len() != "from"@.len() && "q"@.len()
        != "to"@.len());
}

/// The paging parameters of page 1 with 100 per page are written
/// `page=1&per_page=100`, and nothing else.
pub proof fn lemma_paging_query_example()
    ensures
        query_text(paging_params(1, 100)) == "page=1&per_page=100"@,
{
    reveal_with_fuel(decimal, 4);
    reveal_strlit("page");
    reveal_strlit("per_page");
    reveal_strlit("page=1&per_page=100");
    assert(decimal(1) =~= seq!['1']);
    assert(decimal(100) =~= seq!['1', '0', '0']);
    lemma_form_plain("page"@);
    lemma_form_plain("per_page"@);
    lemma_form_plain(decimal(1));
    lemma_form_plain(decimal(100));
    let pairs = paging_params(1, 100);
    let parts = pairs.map_values(|p: (Seq<char>, Seq<char>)| query_pair(p.0, p.1));
    assert(parts.drop_last() =~= seq![query_pair("page"@, decimal(1))]);
    reveal_with_fuel(joined, 3);
    assert(joined(parts, seq!['&']) == parts[0] + seq!['&'] + parts[1]);
    assert(parts[0] =~= "page"@ + seq!['='] + seq!['1']);
    assert(parts[1] =~= "per_page"@ + seq!['='] + seq!['1', '0', '0']);
    assert(query_text(pairs) =~= "page=1&per_page=100"@);
}

/// The three strings one after another.
fn concat3(a: &str, b: &str, c: &str) -> (r: String)
    ensures
        r@ == a@ + b@ + c@,
{
    let mut r = String::from_str(a);
    r.append(b);
    r.append(c);
    r
}

/// The JSON object `{"key":inner}`.
fn envelope(key: &str, inner: String) -> (r: String)
    ensures
        r@ == enveloped(key@, inner@),
{
    let mut ms: Vec<String> = Vec::new();
    push_member(&mut ms, key, inner.as_str());
    assert(members_of(ms) =~= seq![member(key@, inner@)]);
    object_json(&ms)
}

/// The `page` and `per_page` parameters of a listing.
fn paging(page: u32, per_page: u32) -> (r: Vec<(String, String)>)
    ensures
        pairs_view(r@) == paging_params(page, per_page),
{
    let mut r: Vec<(String, String)> = Vec::new();
    r.push((String::from_str("page"), decimal_text(page)));
    r.push((String::from_str("per_page"), decimal_text(per_page)));
    assert(pairs_view(r@) =~= paging_params(page, per_page));
    r
}

/// Appends a parameter when its value is given.
fn push_opt_param(params: &mut Vec<(String, String)>, key: &str, value: Option<String>)
    ensures
        pairs_view(final(params)@) == pairs_view(old(params)@) + opt_param(key@, opt_text(value)),
{
    match value {
        Some(v) => {
            params.push((String::from_str(key), v));
        },
        None => {},
    }
    assert(pairs_view(params@) =~= pairs_view(old(params)@) + opt_param(key@, opt_text(value)));
}

/// A client of the invoicing service. The address and the token do not
/// change once it is made.
#[derive(Clone)]
pub struct Client {
    server: String,
    token: String,
}

impl Client {
    /// The base URL of the service.
    pub closed spec fn server_view(&self) -> Seq<char> {
        self.server@
    }

    /// The bearer token.
    pub closed spec fn token_view(&self) -> Seq<char> {
        self.token@
    }

    /// `r` is the request that this client sends for `method` on `path`, with
    /// the query parameters, the JSON payload and the reading of a successful
    /// body given; it is `Err` exactly when the path does not resolve against
    /// the base URL.
    pub open spec fn issues(
        &self,
        r: Result<HttpRequest, TransportError>,
        method: Method,
        path: Seq<char>,
        query: Option<Seq<(Seq<char>, Seq<char>)>>,
        body: Option<Seq<char>>,
        expect: Expect,
    ) -> bool {
        match resolved_url(self.server_view(), path) {
            None => r is Err,
            Some(base) => match r {
                Ok(q) => assembled(q, base, self.token_view(), method, query, body, expect),
                Err(_) => false,
            },
        }
    }

    /// A client of the service at its public address.
    pub fn new(token: String) -> (r: Client)
        ensures
            r.server_view() == "https://invoice.moneyforward.com/"@,
            r.token_view() == token@,
    {
        Client { server: String::from_str("https://invoice.moneyforward.com/"), token }
    }

    /// A client of the service at another base URL.
    pub fn with_server(server: String, token: String) -> (r: Client)
        ensures
            r.server_view() == server@,
            r.token_view() == token@,
    {
        Client { server, token }
    }

    /// The request for `method` on `path`; every endpoint goes through here.
    fn prepare(
        &self,
        method: Method,
        path: &str,
        params: Option<Vec<(String, String)>>,
        body: Option<String>,
        expect: Expect,
    ) -> (r: Result<HttpRequest, TransportError>)
        ensures
            self.issues(
                r,
                method,
                path@,
                match params { Some(p) => Some(pairs_view(p@)), None => None },
                opt_text(body),
                expect,
            ),
    {
        match resolve_url(self.server.as_str(), path) {
            Some(base) => Ok(HttpRequest::assemble(base, self.token.as_str(), method, params, body, expect)),
            None => Err(TransportError { cause: String::from_str("the request URL could not be formed") }),
        }
    }
}

impl Client {
    /// The office of the account.
    pub fn get_office(&self) -> (r: Result<HttpRequest, TransportError>)
        ensures
            self.issues(r, Method::Get, "/api/v1/office.json"@, None, None, Expect::Json),
    {
        self.prepare(Method::Get, "/api/v1/office.json", None, None, Expect::Json)
    }

    /// Changes the office; the payload holds the fields that are set.
    pub fn update_office(&self, req: UpdateOffice) -> (r: Result<HttpRequest, TransportError>)
        ensures
            self.issues(r, Method::Patch, "/api/v1/office"@, None, Some(req.json_spec()), Expect::Json),
    {
        let body = req.to_json();
        self.prepare(Method::Patch, "/api/v1/office", None, Some(body), Expect::Json)
    }

    /// A page of partners.
    pub fn list_partners(&self, page: u32, per_page: u32) -> (r: Result<HttpRequest, TransportError>)
        ensures
            self.issues(r, Method::Get, "/api/v1/partners.json"@, Some(paging_params(page, per_page)), None, Expect::Json),
    {
        let params = paging(page, per_page);
        self.prepare(Method::Get, "/api/v1/partners.json", Some(params), None, Expect::Json)
    }

    /// One partner.
    pub fn get_partner(&self, id: &str) -> (r: Result<HttpRequest, TransportError>)
        ensures
            self.issues(r, Method::Get, "/api/v1/partners/"@ + id@ + ".json"@, None, None, Expect::Json),
    {
        let path = concat3("/api/v1/partners/", id, ".json");
        self.prepare(Method::Get, path.as_str(), None, None, Expect::Json)
    }

    /// Creates a partner; the payload is `{"partner": ...}`.
    pub fn create_partner(&self, req: NewPartner) -> (r: Result<HttpRequest, TransportError>)
        ensures
            self.issues(r, Method::Post, "/api/v1/partners"@, None, Some(enveloped("partner"@, req.json_spec())), Expect::Json),
    {
        let body = envelope("partner", req.to_json());
        self.prepare(Method::Post, "/api/v1/partners", None, Some(body), Expect::Json)
    }

    /// Changes a partner; the payload is `{"partner": ...}`.
    pub fn update_partner(&self, id: &str, req: UpdatePartner) -> (r: Result<HttpRequest, TransportError>)
        ensures
            self.issues(r, Method::Patch, "/api/v1/partners/"@ + id@, None, Some(enveloped("partner"@, req.json_spec())), Expect::Json),
    {
        let path = concat3("/api/v1/partners/", id, "");
        let body = envelope("partner", req.to_json());
        proof {
            reveal_strlit("");
            assert(""@ =~= Seq::<char>::empty());
            assert(path@ =~= "/api/v1/partners/"@ + id@);
        }
        self.prepare(Method::Patch, path.as_str(), None, Some(body), Expect::Json)
    }

    /// Deletes a partner.
    pub fn delete_partner(&self, id: &str) -> (r: Result<HttpRequest, TransportError>)
        ensures
            self.issues(r, Method::Delete, "/api/v1/partners/"@ + id@ + ".json"@, None, None, Expect::Nothing),
    {
        let path = concat3("/api/v1/partners/", id, ".json");
        self.prepare(Method::Delete, path.as_str(), None, None, Expect::Nothing)
    }

    /// A page of billings.
    pub fn list_billings(&self, page: u32, per_page: u32) -> (r: Result<HttpRequest, TransportError>)
        ensures
            self.issues(r, Method::Get, "/api/v1/billings.json"@, Some(paging_params(page, per_page)), None, Expect::Json),
    {
        let params = paging(page, per_page);
        self.prepare(Method::Get, "/api/v1/billings.json", Some(params), None, Expect::Json)
    }

    /// Searches billings: paging and query, then the range key and the dates
    /// that are given; one that is not given is left out of the query string.
    pub fn search_billings(&self, page: u32, per_page: u32, q: &str, range_key: Option<&str>, from: Option<Date>, to: Option<Date>) -> (r: Result<HttpRequest, TransportError>)
        ensures
            self.issues(r, Method::Get, "/api/v1/billings/search.json"@, Some(search_params(page, per_page, q@, match range_key { Some(k) => Some(k@), None => None }, from, to)), None, Expect::Json),
    {
        let mut params = paging(page, per_page);
        params.push((String::from_str("q"), String::from_str(q)));
        let range_text = match range_key {
            Some(k) => Some(String::from_str(k)),
            None => None,
        };
        push_opt_param(&mut params, "range_key", range_text);
        let from_text = match from {
            Some(d) => Some(d.to_text()),
            None => None,
        };
        push_opt_param(&mut params, "from", from_text);
        let to_text = match to {
            Some(d) => Some(d.to_text()),
            None => None,
        };
        push_opt_param(&mut params, "to", to_text);
        assert(pairs_view(params@) =~= search_params(page, per_page, q@, match range_key { Some(k) => Some(k@), None => None }, from, to));
        self.prepare(Method::Get, "/api/v1/billings/search.json", Some(params), None, Expect::Json)
    }

    /// One billing.
    pub fn get_billing(&self, id: &str) -> (r: Result<HttpRequest, TransportError>)
        ensures
            self.issues(r, Method::Get, "/api/v1/billing/"@ + id@ + ".json"@, None, None, Expect::Json),
    {
        let path = concat3("/api/v1/billing/", id, ".json");
        self.prepare(Method::Get, path.as_str(), None, None, Expect::Json)
    }

    /// The PDF document of a billing, as raw bytes.
    pub fn get_billing_pdf(&self, id: &str) -> (r: Result<HttpRequest, TransportError>)
        ensures
            self.issues(r, Method::Get, "/api/v1/billing/"@ + id@ + ".pdf"@, None, None, Expect::Bytes),
    {
        let path = concat3("/api/v1/billing/", id, ".pdf");
        self.prepare(Method::Get, path.as_str(), None, None, Expect::Bytes)
    }

    /// Creates a billing; the payload is `{"billing": ...}`.
    pub fn create_billing(&self, req: NewBilling) -> (r: Result<HttpRequest, TransportError>)
        ensures
            self.issues(r, Method::Post, "/api/v1/billings"@, None, Some(enveloped("billing"@, req.json_spec())), Expect::Json),
    {
        let body = envelope("billing", req.to_json());
        self.prepare(Method::Post, "/api/v1/billings", None, Some(body), Expect::Json)
    }

    /// Changes a billing; the payload is `{"billing": ...}`.
    pub fn update_billing(&self, id: &str, req: UpdateBilling) -> (r: Result<HttpRequest, TransportError>)
        ensures
            self.issues(r, Method::Patch, "/api/v1/billings/"@ + id@, None, Some(enveloped("billing"@, req.json_spec())), Expect::Json),
    {
        let path = concat3("/api/v1/billings/", id, "");
        let body = envelope("billing", req.to_json());
        proof {
            reveal_strlit("");
            assert(""@ =~= Seq::<char>::empty());
            assert(path@ =~= "/api/v1/billings/"@ + id@);
        }
        self.prepare(Method::Patch, path.as_str(), None, Some(body), Expect::Json)
    }

    /// Has a billing posted.
    pub fn posting_billing(&self, id: &str) -> (r: Result<HttpRequest, TransportError>)
        ensures
            self.issues(r, Method::Post, "/api/v1/billings/"@ + id@ + "/posting"@, None, None, Expect::Nothing),
    {
        let path = concat3("/api/v1/billings/", id, "/posting");
        self.prepare(Method::Post, path.as_str(), None, None, Expect::Nothing)
    }

    /// Cancels the posting of a billing.
    pub fn cancel_posting_billing(&self, id: &str) -> (r: Result<HttpRequest, TransportError>)
        ensures
            self.issues(r, Method::Post, "/api/v1/billings/"@ + id@ + "/cancel_posting"@, None, None, Expect::Nothing),
    {
        let path = concat3("/api/v1/billings/", id, "/cancel_posting");
        self.prepare(Method::Post, path.as_str(), None, None, Expect::Nothing)
    }

    /// Deletes a billing.
    pub fn delete_billing(&self, id: &str) -> (r: Result<HttpRequest, TransportError>)
        ensures
            self.issues(r, Method::Delete, "/api/v1/billings/"@ + id@, None, None, Expect::Nothing),
    {
        let path = concat3("/api/v1/billings/", id, "");
        proof {
            reveal_strlit("");
            assert(""@ =~= Seq::<char>::empty());
            assert(path@ =~= "/api/v1/billings/"@ + id@);
        }
        self.prepare(Method::Delete, path.as_str(), None, None, Expect::Nothing)
    }

    /// The items of the account.
    pub fn list_items(&self) -> (r: Result<HttpRequest, TransportError>)
        ensures
            self.issues(r, Method::Get, "/api/v1/items.json"@, None, None, Expect::Json),
    {
        self.prepare(Method::Get, "/api/v1/items.json", None, None, Expect::Json)
    }

    /// One item.
    pub fn get_item(&self, id: &str) -> (r: Result<HttpRequest, TransportError>)
        ensures
            self.issues(r, Method::Get, "/api/v1/items/"@ + id@ + ".json"@, None, None, Expect::Json),
    {
        let path = concat3("/api/v1/items/", id, ".json");
        self.prepare(Method::Get, path.as_str(), None, None, Expect::Json)
    }

    /// Creates an item; the payload holds the fields that are set.
    pub fn create_item(&self, req: NewItem) -> (r: Result<HttpRequest, TransportError>)
        ensures
            self.issues(r, Method::Post, "/api/v1/items.json"@, None, Some(req.json_spec()), Expect::Json),
    {
        let body = req.to_json();
        self.prepare(Method::Post, "/api/v1/items.json", None, Some(body), Expect::Json)
    }

    /// Changes an item; the payload holds the fields that are set.
    pub fn update_item(&self, id: &str, req: UpdateItem) -> (r: Result<HttpRequest, TransportError>)
        ensures
            self.issues(r, Method::Patch, "/api/v1/items/"@ + id@, None, Some(req.json_spec()), Expect::Json),
    {
        let path = concat3("/api/v1/items/", id, "");
        let body = req.to_json();
        proof {
            reveal_strlit("");
            assert(""@ =~= Seq::<char>::empty());
            assert(path@ =~= "/api/v1/items/"@ + id@);
        }
        self.prepare(Method::Patch, path.as_str(), None, Some(body), Expect::Json)
    }

    /// Deletes an item.
    pub fn delete_item(&self, id: &str) -> (r: Result<HttpRequest, TransportError>)
        ensures
            self.issues(r, Method::Delete, "/api/v1/items/"@ + id@, None, None, Expect::Nothing),
    {
        let path = concat3("/api/v1/items/", id, "");
        proof {
            reveal_strlit("");
            assert(""@ =~= Seq::<char>::empty());
            assert(path@ =~= "/api/v1/items/"@ + id@);
        }
        self.prepare(Method::Delete, path.as_str(), None, None, Expect::Nothing)
    }

    /// A page of the documents sent.
    pub fn sent_history(&self, page: u32, per_page: u32) -> (r: Result<HttpRequest, TransportError>)
        ensures
            self.issues(r, Method::Get, "/api/v1/sent_history.json"@, Some(paging_params(page, per_page)), None, Expect::Json),
    {
        let params = paging(page, per_page);
        self.prepare(Method::Get, "/api/v1/sent_history.json", Some(params), None, Expect::Json)
    }
}

} // verus!
