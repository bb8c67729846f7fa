//! The server's side of the code grant: decoding authorization requests,
//! negotiating them, issuing codes and redeeming codes for tokens.
use vstd::prelude::*;

use super::{
    opt_grant_terms, opt_str_view, opt_string_view, opt_url_view, request_for_grant, request_terms,
    Authorizer, ClientParameter, Grant, GrantTerms, IssuedToken, Issuer, NegotiationParams,
    Negotiated, Registrar, RegistrarError, Request,
};
use crate::query::{pairs_to_map, QueryMap};
use crate::time::{current_time, Timestamp};
use crate::web_url::{url_extend_query, url_parse, url_query_pairs, Url};

verus! {

/// The value of `name` in the query, if it has one.
pub open spec fn query_value(q: Map<Seq<char>, Seq<char>>, name: Seq<char>) -> Option<Seq<char>> {
    if q.dom().contains(name) {
        Some(q[name])
    } else {
        None
    }
}

/// Why an authorization request with this query is refused, checked in this
/// order: no `response_type`; a `response_type` other than `code`; no
/// `client_id`; a `redirect_url` that is no absolute URL. `None` where it is
/// accepted.
pub open spec fn client_request_refusal(q: Map<Seq<char>, Seq<char>>) -> Option<Seq<char>> {
    if !q.dom().contains("response_type"@) {
        Some("Response type needs to be set"@)
    } else if q["response_type"@] != "code"@ {
        Some("Invalid response type"@)
    } else if !q.dom().contains("client_id"@) {
        Some("client_id needs to be set"@)
    } else if q.dom().contains("redirect_url"@) && url_parse(q["redirect_url"@]) is None {
        Some("Invalid url"@)
    } else {
        None
    }
}

/// The redirect URL that a query gives, parsed, if it gives one.
pub open spec fn decoded_redirect(q: Map<Seq<char>, Seq<char>>) -> Option<Seq<char>> {
    if q.dom().contains("redirect_url"@) {
        url_parse(q["redirect_url"@])
    } else {
        None
    }
}

/// The parameters that an accepted request with this query carries: the
/// client id, and scope and state as given, and the parsed redirect URL.
pub open spec fn decoded_parameters(p: ClientParameter, q: Map<Seq<char>, Seq<char>>) -> bool {
    &&& p.client_id@ == q["client_id"@]
    &&& opt_string_view(p.scope) == query_value(q, "scope"@)
    &&& opt_string_view(p.state) == query_value(q, "state"@)
    &&& match p.redirect_url {
        Some(u) => q.dom().contains("redirect_url"@) && url_parse(q["redirect_url"@]) == Some(u@),
        None => !q.dom().contains("redirect_url"@),
    }
}

fn is_text(s: &String, text: &str) -> (r: bool)
    ensures
        r == (s@ == text@),
{
    let t = text.to_owned();
    *s == t
}

fn copy_opt(o: Option<&String>) -> (r: Option<String>)
    ensures
        opt_string_view(r) == match o {
            Some(s) => Some(s@),
            None => None::<Seq<char>>,
        },
{
    match o {
        Some(s) => Some(s.clone()),
        None => None,
    }
}

pub(crate) fn read_client_request(kvpairs: &QueryMap) -> (r: Result<ClientParameter, String>)
    ensures
        match r {
            Ok(p) => client_request_refusal(kvpairs@) is None && decoded_parameters(p, kvpairs@),
            Err(e) => client_request_refusal(kvpairs@) == Some(e@),
        },
{
    match kvpairs.get("response_type") {
        None => return Err("Response type needs to be set".to_owned()),
        Some(s) => {
            if !is_text(s, "code") {
                return Err("Invalid response type".to_owned());
            }
        },
    }
    let client_id = match kvpairs.get("client_id") {
        None => return Err("client_id needs to be set".to_owned()),
        Some(s) => s.clone(),
    };
    let redirect_url = match kvpairs.get("redirect_url") {
        None => None,
        Some(st) => match Url::parse(st.as_str()) {
            None => return Err("Invalid url".to_owned()),
            Some(u) => Some(u),
        },
    };
    let state = copy_opt(kvpairs.get("state"));
    let scope = copy_opt(kvpairs.get("scope"));
    Ok(ClientParameter { client_id, scope, redirect_url, state })
}

/// Decodes the parameters of an authorization request from its query. It is
/// accepted exactly when `client_request_refusal` finds nothing; otherwise the
/// message of the first failed check comes back.
pub fn decode_query(kvpairs: QueryMap) -> (r: Result<ClientParameter, String>)
    ensures
        match r {
            Ok(p) => client_request_refusal(kvpairs@) is None && decoded_parameters(p, kvpairs@),
            Err(e) => client_request_refusal(kvpairs@) == Some(e@),
        },
{
    read_client_request(&kvpairs)
}

/// The view of an optional owned URL.
pub open spec fn owned_url_view(o: Option<Url>) -> Option<Seq<char>> {
    match o {
        Some(u) => Some(u@),
        None => None,
    }
}

/// An authorization request is accepted exactly when its `response_type` is
/// `code`, it names a client, and its `redirect_url`, if it gives one, is an
/// absolute URL. An accepted request keeps its client id, its scope and its
/// state as the query gives them, whatever else the query carries, and its
/// redirect URL is the query's `redirect_url` parsed; the redirect URL that
/// `CodeGranter::auth_url_encoded` hands to the authorizer is that same URL.
pub proof fn law_client_request_decoding(q: Map<Seq<char>, Seq<char>>, p: ClientParameter)
    ensures
        client_request_refusal(q) is None <==> {
            &&& q.dom().contains("response_type"@)
            &&& q["response_type"@] == "code"@
            &&& q.dom().contains("client_id"@)
            &&& q.dom().contains("redirect_url"@) ==> url_parse(q["redirect_url"@]) is Some
        },
        q.dom().contains("redirect_url"@) ==> decoded_redirect(q) == url_parse(q["redirect_url"@]),
        !q.dom().contains("redirect_url"@) ==> decoded_redirect(q) is None,
        decoded_parameters(p, q) ==> {
            &&& p.client_id@ == q["client_id"@]
            &&& q.dom().contains("state"@) ==> opt_string_view(p.state) == Some(q["state"@])
            &&& !q.dom().contains("state"@) ==> p.state is None
            &&& q.dom().contains("scope"@) ==> opt_string_view(p.scope) == Some(q["scope"@])
            &&& !q.dom().contains("scope"@) ==> p.scope is None
            &&& q.dom().contains("redirect_url"@) ==> owned_url_view(p.redirect_url) == url_parse(
                q["redirect_url"@],
            ) && p.redirect_url is Some
            &&& !q.dom().contains("redirect_url"@) ==> p.redirect_url is None
            &&& decoded_redirect(q) == owned_url_view(p.redirect_url)
        },
{
}

/// The query parameters that carry an authorization code back to the client:
/// `code`, then `state` where the request had one.
pub open spec fn code_pairs(code: Seq<char>, state: Option<Seq<char>>) -> Seq<(Seq<char>, Seq<char>)> {
    match state {
        Some(s) => seq![("code"@, code), ("state"@, s)],
        None => seq![("code"@, code)],
    }
}

/// Decoding the query of a redirect URL that `redirect_with_code` produced
/// gives back the code, and the state where one was given, whatever query
/// parameters the URL had before.
pub proof fn lemma_redirect_carries_code(
    before: Seq<(Seq<char>, Seq<char>)>,
    code: Seq<char>,
    state: Option<Seq<char>>,
)
    ensures
        pairs_to_map(before + code_pairs(code, state)).dom().contains("code"@),
        pairs_to_map(before + code_pairs(code, state))["code"@] == code,
        state matches Some(s) ==> {
            &&& pairs_to_map(before + code_pairs(code, state)).dom().contains("state"@)
            &&& pairs_to_map(before + code_pairs(code, state))["state"@] == s
        },
{
    reveal_strlit("code");
    reveal_strlit("state");
    let all = before + code_pairs(code, state);
    assert("code"@.len() == 4 && "state"@.len() == 5);
    match state {
        Some(s) => {
            let with_code = before.push(("code"@, code));
            assert(all.drop_last() =~= with_code);
            assert(with_code.drop_last() =~= before);
            assert(pairs_to_map(with_code) == pairs_to_map(before).insert("code"@, code));
            assert(pairs_to_map(all) == pairs_to_map(with_code).insert("state"@, s));
            assert("code"@ != "state"@);
        },
        None => {
            assert(all.drop_last() =~= before);
        },
    }
}

/// `url` with the code, and the state if given, appended to its query.
pub fn redirect_with_code(url: Url, code: &str, state: Option<&str>) -> (r: Url)
    ensures
        r@ == url_extend_query(url@, code_pairs(code@, opt_str_view(state))),
        url_query_pairs(r@) == url_query_pairs(url@) + code_pairs(code@, opt_str_view(state)),
{
    let mut pairs: Vec<(String, String)> = Vec::new();
    pairs.push(("code".to_owned(), code.to_owned()));
    match state {
        Some(s) => pairs.push(("state".to_owned(), s.to_owned())),
        None => {},
    }
    assert(pairs.deep_view() =~= code_pairs(code@, opt_str_view(state)));
    url.with_query_pairs(&pairs)
}

/// How the code grant answers a request that it cannot serve.
pub enum CodeError {
    /// Ignore the request entirely.
    Ignore,
    /// Redirect to the given url.
    Redirect(Url),
}

/// What the code grant makes of the registrar's answer `res` to a request
/// with this redirect URL, given as `r`: a negotiation passes through; an
/// unregistered client or a mismatched redirect URL makes the request be
/// ignored; a failure of the registrar itself is answered with a redirect to
/// the request's redirect URL. Where the request gave no redirect URL, there
/// is nowhere to redirect to, and such a failure makes the request be
/// ignored.
pub open spec fn negotiation_answered(
    res: Result<Negotiated, RegistrarError>,
    redirect_url: Option<Seq<char>>,
    r: Result<Negotiated, CodeError>,
) -> bool {
    match res {
        Ok(n) => r == Ok::<Negotiated, CodeError>(n),
        Err(RegistrarError::Error(_)) => match redirect_url {
            Some(u) => r matches Err(CodeError::Redirect(v)) && v@ == u,
            None => r matches Err(CodeError::Ignore),
        },
        Err(_) => r matches Err(CodeError::Ignore),
    }
}

/// How `CodeRef::negotiate` answers, whatever redirect URL the request gave:
/// a negotiation the registrar made is returned as it is; an unregistered
/// client or a mismatched redirect URL is ignored; a failure of the
/// registrar itself is answered with a redirect to exactly the request's
/// redirect URL, and ignored where the request gave none.
pub proof fn law_negotiation_answer(
    res: Result<Negotiated, RegistrarError>,
    redirect_url: Option<Seq<char>>,
    r: Result<Negotiated, CodeError>,
)
    requires
        negotiation_answered(res, redirect_url, r),
    ensures
        res matches Ok(n) ==> r == Ok::<Negotiated, CodeError>(n),
        res matches Err(RegistrarError::Unregistered) ==> r matches Err(CodeError::Ignore),
        res matches Err(RegistrarError::MismatchedRedirect) ==> r matches Err(CodeError::Ignore),
        res matches Err(RegistrarError::Error(_)) ==> match redirect_url {
            Some(u) => r matches Err(CodeError::Redirect(v)) && v@ == u,
            None => r matches Err(CodeError::Ignore),
        },
        r is Ok <==> res is Ok,
{
}

/// Answers the registrar's answer to a request with this redirect URL as
/// `negotiation_answered` says.
pub fn negotiation_outcome(res: Result<Negotiated, RegistrarError>, redirect_url: Option<&Url>) -> (r: Result<Negotiated, CodeError>)
    ensures
        negotiation_answered(res, opt_url_view(redirect_url), r),
{
    match res {
        Err(RegistrarError::Unregistered) => Err(CodeError::Ignore),
        Err(RegistrarError::MismatchedRedirect) => Err(CodeError::Ignore),
        Err(RegistrarError::Error(_)) => match redirect_url {
            Some(u) => Err(CodeError::Redirect(u.clone())),
            None => Err(CodeError::Ignore),
        },
        Ok(negotiated) => Ok(negotiated),
    }
}

/// The authorization request half of the code grant, over a registrar and an
/// authorizer.
pub struct CodeRef<'a, R: Registrar, A: Authorizer> {
    registrar: &'a R,
    authorizer: &'a mut A,
}

impl<'u, R: Registrar, A: Authorizer> CodeRef<'u, R, A> {
    /// Asks the registrar whether the client may make this request, with
    /// exactly these parameters, and answers as `negotiation_outcome` does.
    pub fn negotiate(&self, client_id: &str, scope: Option<&str>, redirect_url: Option<&Url>) -> (r: Result<Negotiated, CodeError>)
        ensures
            negotiation_answered(
                self.registrar().answer(client_id@, opt_str_view(scope), opt_url_view(redirect_url)),
                opt_url_view(redirect_url),
                r,
            ),
    {
        let result = self.registrar.negotiate(NegotiationParams { client_id, scope, redirect_url });
        negotiation_outcome(result, redirect_url)
    }

    /// Has the authorizer issue a code for the negotiated grant, asking on
    /// behalf of `owner_id` for the negotiated client, redirect URL and
    /// scope, and returns the redirect URL, which carries the code, then the
    /// state if there is one, as query parameters after those it had.
    pub fn authorize(&mut self, owner_id: &str, negotiated: Negotiated, state: Option<&str>) -> (r: Result<Url, CodeError>)
        ensures
            final(self).registrar() == old(self).registrar(),
            r matches Ok(u) && exists|code: Seq<char>|
                #[trigger] old(self).authorizer().authorizes(
                    request_terms(owner_id@, negotiated.client_id@, negotiated.redirect_url@, negotiated.scope@),
                    final(self).authorizer(),
                    code,
                )
                && u@ == url_extend_query(negotiated.redirect_url@, code_pairs(code, opt_str_view(state)))
                && url_query_pairs(u@) == url_query_pairs(negotiated.redirect_url@) + code_pairs(code, opt_str_view(state)),
    {
        let grant = self.authorizer.authorize(
            Request {
                owner_id,
                client_id: negotiated.client_id.as_str(),
                redirect_url: &negotiated.redirect_url,
                scope: negotiated.scope.as_str(),
            },
        );
        let url = redirect_with_code(negotiated.redirect_url, grant.as_str(), state);
        assert(old(self).authorizer().authorizes(
            request_terms(owner_id@, negotiated.client_id@, negotiated.redirect_url@, negotiated.scope@),
            final(self).authorizer(),
            grant@,
        ));
        Ok(url)
    }

    /// The registrar that this flow asks.
    pub closed spec fn registrar(&self) -> R {
        *self.registrar
    }

    /// The authorizer that this flow has issue codes.
    pub closed spec fn authorizer(&self) -> A {
        *self.authorizer
    }

    /// A flow over this registrar and authorizer.
    pub fn with(registrar: &'u R, t: &'u mut A) -> (c: CodeRef<'u, R, A>)
        ensures
            c.registrar() == *registrar,
            c.authorizer() == *old(t),
    {
        CodeRef { registrar, authorizer: t }
    }
}

/// Why a code is not redeemed, checked in this order: the authorizer knows no
/// active grant for it; the client or the redirect URL differ from those of
/// the grant; the current time could not be read (`now` is `None`); the grant
/// expired before `now`. `None` where it is redeemed.
pub open spec fn grant_refusal(
    saved: Option<GrantTerms>,
    expected_client: Seq<char>,
    expected_url: Seq<char>,
    now: Option<Timestamp>,
) -> Option<Seq<char>> {
    match saved {
        None => Some("Inactive code"@),
        Some(g) => if g.client_id != expected_client || expected_url != g.redirect_url {
            Some("Invalid code"@)
        } else {
            match now {
                None => Some("Current time unavailable"@),
                Some(t) => if g.until.spec_is_before(t) {
                    Some("Code no longer valid"@)
                } else {
                    None
                },
            }
        },
    }
}

/// A code whose grant was made for this client and redirect URL is redeemed
/// at `now` exactly when its grant's `until` does not lie before `now`
/// (compared by seconds, then nanoseconds), and refused as no longer valid
/// otherwise. A code without a grant, or whose grant was made for another
/// client or redirect URL, is refused whatever the time, and no time is
/// needed for that.
pub proof fn law_grant_expiry(
    g: GrantTerms,
    expected_client: Seq<char>,
    expected_url: Seq<char>,
    now: Timestamp,
    other_time: Option<Timestamp>,
)
    ensures
        g.client_id == expected_client && expected_url == g.redirect_url ==> {
            &&& grant_refusal(Some(g), expected_client, expected_url, Some(now)) is None
                <==> (now.secs < g.until.secs || (now.secs == g.until.secs && now.nanos <= g.until.nanos))
            &&& (g.until.secs < now.secs || (g.until.secs == now.secs && g.until.nanos < now.nanos))
                ==> grant_refusal(Some(g), expected_client, expected_url, Some(now)) == Some("Code no longer valid"@)
        },
        grant_refusal(None, expected_client, expected_url, other_time) == Some("Inactive code"@),
        !(g.client_id == expected_client && expected_url == g.redirect_url) ==> grant_refusal(
            Some(g),
            expected_client,
            expected_url,
            other_time,
        ) == Some("Invalid code"@),
{
}

/// The refusal that a result of `use_code` carries, if any.
pub open spec fn refusal_of(r: Result<IssuedToken, String>) -> Option<Seq<char>> {
    match r {
        Ok(_) => None,
        Err(e) => Some(e@),
    }
}

fn same_text(a: &str, b: &str) -> (r: bool)
    ensures
        r == (a@ == b@),
{
    let x = a.to_owned();
    let y = b.to_owned();
    x == y
}

/// The grant was made for this client and this redirect URL.
fn grant_matches(g: &Grant, expected_client: &str, expected_url: &str) -> (r: bool)
    ensures
        r == (g@.client_id == expected_client@ && expected_url@ == g@.redirect_url),
{
    same_text(g.client_id, expected_client) && same_text(expected_url, g.redirect_url.as_str())
}

/// Decides whether the grant recovered for a code may be redeemed at `now`
/// by this client with this redirect URL, as `grant_refusal` says.
pub fn check_grant(
    saved: &Option<Grant>,
    expected_client: &str,
    expected_url: &str,
    now: Option<Timestamp>,
) -> (r: Result<(), String>)
    ensures
        match r {
            Ok(_) => grant_refusal(opt_grant_terms(*saved), expected_client@, expected_url@, now) is None,
            Err(e) => grant_refusal(opt_grant_terms(*saved), expected_client@, expected_url@, now) == Some(e@),
        },
{
    match saved {
        None => Err("Inactive code".to_owned()),
        Some(g) => {
            if !grant_matches(g, expected_client, expected_url) {
                return Err("Invalid code".to_owned());
            }
            match now {
                None => Err("Current time unavailable".to_owned()),
                Some(t) => {
                    if g.until.is_before(&t) {
                        Err("Code no longer valid".to_owned())
                    } else {
                        Ok(())
                    }
                },
            }
        },
    }
}

/// The token request half of the code grant, over an authorizer and an
/// issuer.
pub struct IssuerRef<'a, A: Authorizer, I: Issuer> {
    authorizer: &'a mut A,
    issuer: &'a mut I,
}

impl<'u, A: Authorizer, I: Issuer> IssuerRef<'u, A, I> {
    /// Redeems `code` for a token. The authorizer is asked for the grant
    /// behind this very code and is left as it was; where the grant was made
    /// for this client and redirect URL, the current time is read. The code
    /// is refused as `grant_refusal` says at the time read; otherwise the
    /// issuer is asked for a token for the grant's owner, client, redirect
    /// URL and scope, and that token is returned. On a refusal the issuer is
    /// left as it was.
    pub fn use_code(&mut self, code: String, expected_client: &str, expected_url: &str) -> (r: Result<IssuedToken, String>)
        ensures
            final(self).authorizer() == old(self).authorizer(),
            exists|now: Option<Timestamp>|
                #[trigger] grant_refusal(
                    old(self).authorizer().recovered(code@),
                    expected_client@,
                    expected_url@,
                    now,
                ) == refusal_of(r),
            r matches Ok(t) ==> old(self).authorizer().recovered(code@) matches Some(g)
                && old(self).issuer().issues(request_for_grant(g), final(self).issuer(), t),
            r is Err ==> final(self).issuer() == old(self).issuer(),
    {
        let saved_params = self.authorizer.recover_parameters(code.as_str());
        let now = match &saved_params {
            Some(g) => if grant_matches(g, expected_client, expected_url) {
                current_time()
            } else {
                None
            },
            None => None,
        };
        let decision = check_grant(&saved_params, expected_client, expected_url, now);
        let r = match decision {
            Err(e) => Err(e),
            Ok(_) => match saved_params {
                None => Err("Inactive code".to_owned()),
                Some(g) => {
                    let token = self.issuer.issue(
                        Request {
                            client_id: g.client_id,
                            owner_id: g.owner_id,
                            redirect_url: g.redirect_url,
                            scope: g.scope,
                        },
                    );
                    Ok(token)
                },
            },
        };
        assert(grant_refusal(old(self).authorizer().recovered(code@), expected_client@, expected_url@, now) == refusal_of(r));
        r
    }

    /// The authorizer whose codes this flow redeems.
    pub closed spec fn authorizer(&self) -> A {
        *self.authorizer
    }

    /// The issuer that this flow has issue tokens.
    pub closed spec fn issuer(&self) -> I {
        *self.issuer
    }

    /// A flow over this authorizer and issuer.
    pub fn with(t: &'u mut A, i: &'u mut I) -> (r: IssuerRef<'u, A, I>)
        ensures
            r.authorizer() == *old(t),
            r.issuer() == *old(i),
    {
        IssuerRef { authorizer: t, issuer: i }
    }
}

} // verus!
