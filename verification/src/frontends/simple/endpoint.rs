//! Helper for ad-hoc authorization endpoints.
//!
//! A simple struct with public members, `Generic`, gathers the primitives an
//! endpoint needs; the marker `Vacant` stands in for those that are not
//! provided.
use vstd::prelude::*;

use crate::code_grant::{
    opt_grant_terms, Authorizer, Grant, GrantTerms, IssuedToken, Issuer, NegotiationParams,
    Negotiated, Registrar, Request, RequestTerms,
};

verus! {

/// A rather basic endpoint: the primitives it runs on, each of which may be
/// `Vacant`. All fields are public, so there is no inner invariant.
pub struct Generic<R, A, I, S, C, L> {
    /// The registrar, or `Vacant`.
    pub registrar: R,
    /// The authorizer, or `Vacant`.
    pub authorizer: A,
    /// The issuer, or `Vacant`.
    pub issuer: I,
    /// A solicitor fit for the request types, or `Vacant`.
    pub solicitor: S,
    /// Determines scopes for the request types, or `Vacant`.
    pub scopes: C,
    /// Creates responses; `Vacant` creates default ones.
    pub response: L,
}

/// Marker for a primitive that is not provided.
pub struct Vacant;

/// A function or closure used as a solicitor.
pub struct FnSolicitor<F>(pub F);

/// Gives access to a registrar, or says that there is none.
pub trait OptRegistrar {
    /// A registrar is provided.
    spec fn provides_registrar(&self) -> bool;

    /// This as a registrar, or `None`.
    fn opt_ref(&self) -> (r: Option<&dyn Registrar>)
        ensures
            r is Some <==> self.provides_registrar(),
    ;
}

impl<T: Registrar> OptRegistrar for T {
    /// Every registrar is one.
    open spec fn provides_registrar(&self) -> bool {
        true
    }

    fn opt_ref(&self) -> (r: Option<&dyn Registrar>) {
        Some(self)
    }
}

impl OptRegistrar for Vacant {
    /// `Vacant` provides no registrar.
    open spec fn provides_registrar(&self) -> bool {
        false
    }

    fn opt_ref(&self) -> (r: Option<&dyn Registrar>) {
        None
    }
}

/// The authorizer type that `Vacant` names: no value of it can be made
/// outside this module, and none is ever handed out. It refuses every
/// negotiation, knows no code, and hands out empty codes.
pub struct NoAuthorizer {
    _none: (),
}

impl Authorizer for NoAuthorizer {
    open spec fn negotiation(
        &self,
        client_id: Seq<char>,
        scope: Option<Seq<char>>,
        redirect_url: Option<Seq<char>>,
    ) -> Result<Negotiated, Seq<char>> {
        Err("no authorizer"@)
    }

    open spec fn authorizes(&self, req: RequestTerms, after: Self, code: Seq<char>) -> bool {
        after == *self && code.len() == 0
    }

    open spec fn recovered(&self, code: Seq<char>) -> Option<GrantTerms> {
        None
    }

    fn negotiate(&self, params: NegotiationParams) -> (r: Result<Negotiated, String>) {
        Err("no authorizer".to_owned())
    }

    fn authorize(&mut self, req: Request) -> (r: String) {
        String::new()
    }

    fn recover_parameters<'a>(&'a self, code: &'a str) -> (r: Option<Grant<'a>>) {
        None
    }
}

/// The issuer type that `Vacant` names: no value of it can be made outside
/// this module, and none is ever handed out. It hands out empty tokens.
pub struct NoIssuer {
    _none: (),
}

impl Issuer for NoIssuer {
    open spec fn issues(&self, req: RequestTerms, after: Self, token: IssuedToken) -> bool {
        after == *self && token.token@.len() == 0 && token.refresh@.len() == 0
    }

    fn issue(&mut self, req: Request) -> (r: IssuedToken) {
        IssuedToken {
            token: String::new(),
            refresh: String::new(),
            until: crate::time::Timestamp { secs: 0, nanos: 0 },
        }
    }
}

/// Gives access, for changes, to an authorizer, or says that there is none.
pub trait OptAuthorizer {
    /// The kind of authorizer given access to.
    type Auth: Authorizer;

    /// An authorizer is provided.
    spec fn provides_authorizer(&self) -> bool;

    /// This as an authorizer, or `None`.
    fn opt_mut(&mut self) -> (r: Option<&mut Self::Auth>)
        ensures
            r is Some <==> old(self).provides_authorizer(),
    ;
}

impl<T: Authorizer> OptAuthorizer for T {
    type Auth = T;

    /// Every authorizer is one.
    open spec fn provides_authorizer(&self) -> bool {
        true
    }

    /// This very authorizer; what is done through it is done to it.
    fn opt_mut(&mut self) -> (r: Option<&mut T>)
        ensures
            r matches Some(a) && *a == *old(self) && *final(a) == *final(self),
    {
        Some(self)
    }
}

impl OptAuthorizer for Vacant {
    type Auth = NoAuthorizer;

    /// `Vacant` provides no authorizer.
    open spec fn provides_authorizer(&self) -> bool {
        false
    }

    fn opt_mut(&mut self) -> (r: Option<&mut NoAuthorizer>) {
        None
    }
}

/// Gives access, for changes, to an issuer, or says that there is none.
pub trait OptIssuer {
    /// The kind of issuer given access to.
    type Iss: Issuer;

    /// An issuer is provided.
    spec fn provides_issuer(&self) -> bool;

    /// This as an issuer, or `None`.
    fn opt_mut(&mut self) -> (r: Option<&mut Self::Iss>)
        ensures
            r is Some <==> old(self).provides_issuer(),
    ;
}

impl<T: Issuer> OptIssuer for T {
    type Iss = T;

    /// Every issuer is one.
    open spec fn provides_issuer(&self) -> bool {
        true
    }

    /// This very issuer; what is done through it is done to it.
    fn opt_mut(&mut self) -> (r: Option<&mut T>)
        ensures
            r matches Some(a) && *a == *old(self) && *final(a) == *final(self),
    {
        Some(self)
    }
}

impl OptIssuer for Vacant {
    type Iss = NoIssuer;

    /// `Vacant` provides no issuer.
    open spec fn provides_issuer(&self) -> bool {
        false
    }

    fn opt_mut(&mut self) -> (r: Option<&mut NoIssuer>) {
        None
    }
}

/// Creates responses of type `W`.
pub trait ResponseCreator<W> {
    /// The creator can be asked for a response.
    spec fn can_create(&self) -> bool;

    /// `w` is a response that the creator may hand out.
    spec fn may_create(&self, w: W) -> bool;

    /// A new response.
    fn create(&mut self) -> (r: W)
        requires
            old(self).can_create(),
        ensures
            old(self).may_create(r),
    ;
}

impl<W: Default> ResponseCreator<W> for Vacant {
    open spec fn can_create(&self) -> bool {
        true
    }

    /// What `W::default` returns.
    open spec fn may_create(&self, w: W) -> bool {
        call_ensures(W::default, (), w)
    }

    /// The default response.
    fn create(&mut self) -> W {
        W::default()
    }
}

impl<W, F> ResponseCreator<W> for F where F: Fn() -> W {
    open spec fn can_create(&self) -> bool {
        call_requires(*self, ())
    }

    /// What the function returns.
    open spec fn may_create(&self, w: W) -> bool {
        call_ensures(*self, (), w)
    }

    fn create(&mut self) -> (r: W) {
        (*self)()
    }
}

impl<R: OptRegistrar, A, I, S, C, L> Generic<R, A, I, S, C, L> {
    /// The registrar, where one is provided.
    pub fn registrar(&self) -> (r: Option<&dyn Registrar>)
        ensures
            r is Some <==> self.registrar.provides_registrar(),
    {
        self.registrar.opt_ref()
    }

    /// The authorizer, for changes, where one is provided.
    pub fn authorizer_mut(&mut self) -> (r: Option<&mut A::Auth>)
        where A: OptAuthorizer,
        ensures
            r is Some <==> old(self).authorizer.provides_authorizer(),
    {
        self.authorizer.opt_mut()
    }

    /// The issuer, for changes, where one is provided.
    pub fn issuer_mut(&mut self) -> (r: Option<&mut I::Iss>)
        where I: OptIssuer,
        ensures
            r is Some <==> old(self).issuer.provides_issuer(),
    {
        self.issuer.opt_mut()
    }

    /// A new response from the response creator.
    pub fn response<W>(&mut self) -> (r: W)
        where L: ResponseCreator<W>,
        requires
            old(self).response.can_create(),
        ensures
            old(self).response.may_create(r),
    {
        self.response.create()
    }
}

} // verus!
