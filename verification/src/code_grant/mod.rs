//! The authorization code grant: the parameters exchanged between client,
//! resource owner and the server's primitives, and the traits those
//! primitives implement.
use vstd::prelude::*;

use crate::query::{pairs_to_map, QueryMap};
use crate::time::Timestamp;
use crate::web_url::{url_extend_query, url_query_pairs, Url};

use self::backend::{
    client_request_refusal, code_pairs, decoded_redirect, query_value, read_client_request,
    redirect_with_code,
};

pub mod backend;

verus! {

/// The view of an optional string slice.
pub open spec fn opt_str_view(o: Option<&str>) -> Option<Seq<char>> {
    match o {
        Some(s) => Some(s@),
        None => None,
    }
}

/// The view of an optional owned string.
pub open spec fn opt_string_view(o: Option<String>) -> Option<Seq<char>> {
    match o {
        Some(s) => Some(s@),
        None => None,
    }
}

/// The view of an optional URL.
pub open spec fn opt_url_view(o: Option<&Url>) -> Option<Seq<char>> {
    match o {
        Some(u) => Some(u@),
        None => None,
    }
}

/// What a client asks for, handed to the registrar or authorizer to check
/// against what the client registered.
pub struct NegotiationParams<'a> {
    pub client_id: &'a str,
    pub scope: Option<&'a str>,
    pub redirect_url: Option<&'a Url>,
}

/// The outcome of a successful negotiation: where to send the owner back to
/// and with which scope the grant is made.
pub struct Negotiated {
    pub client_id: String,
    pub redirect_url: Url,
    pub scope: String,
}

/// A request for a grant, made on behalf of the owner `owner_id`.
pub struct Request<'a> {
    pub owner_id: &'a str,
    pub client_id: &'a str,
    pub redirect_url: &'a Url,
    pub scope: &'a str,
}

/// What an authorizer remembers of a grant it issued a code for.
pub struct Grant<'a> {
    pub owner_id: &'a str,
    pub client_id: &'a str,
    pub redirect_url: &'a Url,
    pub scope: &'a str,
    pub until: &'a Timestamp,
}

/// The terms of a request for a grant, as values.
pub struct RequestTerms {
    pub owner_id: Seq<char>,
    pub client_id: Seq<char>,
    pub redirect_url: Seq<char>,
    pub scope: Seq<char>,
}

/// The terms of a grant, as values.
pub struct GrantTerms {
    pub owner_id: Seq<char>,
    pub client_id: Seq<char>,
    pub redirect_url: Seq<char>,
    pub scope: Seq<char>,
    pub until: Timestamp,
}

/// The terms of a request with these fields.
pub open spec fn request_terms(
    owner_id: Seq<char>,
    client_id: Seq<char>,
    redirect_url: Seq<char>,
    scope: Seq<char>,
) -> RequestTerms {
    RequestTerms { owner_id, client_id, redirect_url, scope }
}

/// The request for the grant with these terms.
pub open spec fn request_for_grant(g: GrantTerms) -> RequestTerms {
    request_terms(g.owner_id, g.client_id, g.redirect_url, g.scope)
}

impl View for Request<'_> {
    type V = RequestTerms;

    open spec fn view(&self) -> RequestTerms {
        request_terms(self.owner_id@, self.client_id@, self.redirect_url@, self.scope@)
    }
}

impl View for Grant<'_> {
    type V = GrantTerms;

    open spec fn view(&self) -> GrantTerms {
        GrantTerms {
            owner_id: self.owner_id@,
            client_id: self.client_id@,
            redirect_url: self.redirect_url@,
            scope: self.scope@,
            until: *self.until,
        }
    }
}

/// The view of an optional grant.
pub open spec fn opt_grant_terms(o: Option<Grant>) -> Option<GrantTerms> {
    match o {
        Some(g) => Some(g@),
        None => None,
    }
}

/// The parameters of an authorization request, decoded from its query.
pub struct ClientParameter {
    pub client_id: String,
    pub scope: Option<String>,
    pub redirect_url: Option<Url>,
    pub state: Option<String>,
}

/// Why a registrar refused a negotiation.
pub enum RegistrarError {
    /// The client is not registered.
    Unregistered,
    /// The redirect URL differs from the registered one.
    MismatchedRedirect,
    /// The registrar itself failed.
    Error(String),
}

/// A token that an issuer handed out.
pub struct IssuedToken {
    pub token: String,
    pub refresh: String,
    pub until: Timestamp,
}

/// Knows the registered clients and decides on their requests.
///
/// An implementation states its answers through `answer`.
pub trait Registrar {
    /// The answer to a negotiation over these parameters.
    spec fn answer(
        &self,
        client_id: Seq<char>,
        scope: Option<Seq<char>>,
        redirect_url: Option<Seq<char>>,
    ) -> Result<Negotiated, RegistrarError>;

    /// Checks the parameters against the client's registration.
    fn negotiate(&self, params: NegotiationParams) -> (r: Result<Negotiated, RegistrarError>)
        ensures
            r == self.answer(params.client_id@, opt_str_view(params.scope), opt_url_view(params.redirect_url)),
    ;
}

/// Issues authorization codes and recovers the grants behind them.
///
/// An implementation states its behaviour through `negotiation`,
/// `authorizes` and `recovered`.
pub trait Authorizer: Sized {
    /// The answer to a negotiation over these parameters.
    spec fn negotiation(
        &self,
        client_id: Seq<char>,
        scope: Option<Seq<char>>,
        redirect_url: Option<Seq<char>>,
    ) -> Result<Negotiated, Seq<char>>;

    /// Asked for a code for `req`, the authorizer may hand out `code` and
    /// become `after`.
    spec fn authorizes(&self, req: RequestTerms, after: Self, code: Seq<char>) -> bool;

    /// The grant behind `code`, while the code is active.
    spec fn recovered(&self, code: Seq<char>) -> Option<GrantTerms>;

    /// Checks the parameters of a client request.
    fn negotiate(&self, params: NegotiationParams) -> (r: Result<Negotiated, String>)
        ensures
            match r {
                Ok(n) => self.negotiation(
                    params.client_id@,
                    opt_str_view(params.scope),
                    opt_url_view(params.redirect_url),
                ) == Ok::<Negotiated, Seq<char>>(n),
                Err(e) => self.negotiation(
                    params.client_id@,
                    opt_str_view(params.scope),
                    opt_url_view(params.redirect_url),
                ) == Err::<Negotiated, Seq<char>>(e@),
            },
    ;

    /// Creates a code for the grant that `req` asks for.
    fn authorize(&mut self, req: Request) -> (r: String)
        ensures
            old(self).authorizes(req@, *final(self), r@),
    ;

    /// The grant behind `code`, while the code is active.
    fn recover_parameters<'a>(&'a self, code: &'a str) -> (r: Option<Grant<'a>>)
        ensures
            opt_grant_terms(r) == self.recovered(code@),
    ;
}

/// Issues access tokens for grants.
///
/// An implementation states its behaviour through `issues`.
pub trait Issuer: Sized {
    /// Asked for a token for `req`, the issuer may hand out `token` and
    /// become `after`.
    spec fn issues(&self, req: RequestTerms, after: Self, token: IssuedToken) -> bool;

    /// Creates a token for the grant that `req` describes.
    fn issue(&mut self, req: Request) -> (r: IssuedToken)
        ensures
            old(self).issues(req@, *final(self), r),
    ;
}

/// A request as the web frontend sees it.
pub trait WebRequest {
    /// The resource owner that made the request, if known.
    fn owner_id(&self) -> Option<String>;
}

/// Decodes the query of `query` into name/value pairs; where a name occurs
/// more than once, its last value counts.
pub fn decode_query(query: &Url) -> (q: QueryMap)
    ensures
        q@ == pairs_to_map(url_query_pairs(query@)),
{
    QueryMap::from_pairs(query.query_pairs())
}

/// A frontend that holds an authorizer and runs the code grant with it.
///
/// An implementation states which authorizer it holds through `held`.
pub trait CodeGranter {
    /// The kind of authorizer it holds.
    type Auth: Authorizer;

    /// The authorizer it holds.
    spec fn held(&self) -> Self::Auth;

    /// The authorizer, for changes.
    fn authorizer_mut(&mut self) -> (r: &mut Self::Auth)
        ensures
            *r == old(self).held(),
            final(self).held() == *final(r),
    ;

    /// The authorizer.
    fn authorizer(&self) -> (r: &Self::Auth)
        ensures
            *r == self.held(),
    ;

    /// Decodes an authorization request and negotiates it with the
    /// authorizer. The request is refused with the same messages, under the
    /// same conditions, as `backend::decode_query`; an accepted request is
    /// handed to the authorizer with its client id, scope and parsed
    /// redirect URL, and the authorizer's answer is returned, its refusal
    /// unchanged.
    fn auth_url_encoded(&self, query: &QueryMap) -> (r: Result<(String, Negotiated), String>)
        ensures
            match client_request_refusal(query@) {
                Some(e) => r matches Err(m) && m@ == e,
                None => match self.held().negotiation(
                    query@["client_id"@],
                    query_value(query@, "scope"@),
                    decoded_redirect(query@),
                ) {
                    Ok(n) => r matches Ok(p) && p.0@ == query@["client_id"@] && p.1 == n,
                    Err(e) => r matches Err(m) && m@ == e,
                },
            },
    {
        let params = read_client_request(query)?;
        let result = self.authorizer().negotiate(
            NegotiationParams {
                client_id: params.client_id.as_str(),
                scope: match &params.scope {
                    Some(s) => Some(s.as_str()),
                    None => None,
                },
                redirect_url: match &params.redirect_url {
                    Some(u) => Some(u),
                    None => None,
                },
            },
        )?;
        Ok((params.client_id, result))
    }

    /// Has the authorizer issue a code for the negotiated grant, asking on
    /// behalf of `owner_id` for `client_id` with the negotiated redirect URL
    /// and scope, and returns the redirect URL, which carries the code, then
    /// the state if there is one, as query parameters after those it had.
    fn authorize(
        &mut self,
        client_id: String,
        owner_id: String,
        negotiated: Negotiated,
        state: Option<&str>,
    ) -> (r: Url)
        ensures
            exists|code: Seq<char>|
                #[trigger] old(self).held().authorizes(
                    request_terms(owner_id@, client_id@, negotiated.redirect_url@, negotiated.scope@),
                    final(self).held(),
                    code,
                )
                && r@ == url_extend_query(negotiated.redirect_url@, code_pairs(code, opt_str_view(state)))
                && url_query_pairs(r@) == url_query_pairs(negotiated.redirect_url@) + code_pairs(code, opt_str_view(state)),
    {
        let grant = self.authorizer_mut().authorize(
            Request {
                owner_id: owner_id.as_str(),
                client_id: client_id.as_str(),
                redirect_url: &negotiated.redirect_url,
                scope: negotiated.scope.as_str(),
            },
        );
        let url = redirect_with_code(negotiated.redirect_url, grant.as_str(), state);
        assert(old(self).held().authorizes(
            request_terms(owner_id@, client_id@, negotiated.redirect_url@, negotiated.scope@),
            final(self).held(),
            grant@,
        ));
        url
    }
}

} // verus!
