use vstd::seq::Seq;
use oxide_auth::code_grant::{
    Grant, GrantTerms, IssuedToken, Issuer, NegotiationParams, Negotiated, Registrar,
    RegistrarError, Request, RequestTerms,
};
use oxide_auth::frontends::simple::endpoint::{
    FnSolicitor, Generic, OptAuthorizer, OptIssuer, OptRegistrar, ResponseCreator, Vacant,
};
use oxide_auth::code_grant::Authorizer;
use oxide_auth::time::Timestamp;

struct NoClients;

impl Registrar for NoClients {
    fn answer(
        &self,
        _client_id: Seq<char>,
        _scope: Option<Seq<char>>,
        _redirect_url: Option<Seq<char>>,
    ) -> Result<Negotiated, RegistrarError> {
        unreachable!()
    }

    fn negotiate(&self, _params: NegotiationParams) -> Result<Negotiated, RegistrarError> {
        Err(RegistrarError::Unregistered)
    }
}

#[test]
fn vacant_provides_no_registrar() {
    assert!(Vacant.opt_ref().is_none());
    assert!(NoClients.opt_ref().is_some());
}

#[test]
fn response_creators() {
    let mut v = Vacant;
    let s: String = v.create();
    assert_eq!(s, "");
    let n: u32 = v.create();
    assert_eq!(n, 0);
    let mut f = || 7u8;
    assert_eq!(ResponseCreator::<u8>::create(&mut f), 7);
}

#[test]
fn generic_endpoint_accessors() {
    let mut with_registrar = Generic {
        registrar: NoClients,
        authorizer: Vacant,
        issuer: Vacant,
        solicitor: FnSolicitor(|| ()),
        scopes: Vacant,
        response: || "made".to_string(),
    };
    assert!(with_registrar.registrar().is_some());
    let r: String = with_registrar.response();
    assert_eq!(r, "made");

    let mut vacant = Generic {
        registrar: Vacant,
        authorizer: Vacant,
        issuer: Vacant,
        solicitor: Vacant,
        scopes: Vacant,
        response: Vacant,
    };
    assert!(vacant.registrar().is_none());
    let r: Vec<u8> = vacant.response();
    assert!(r.is_empty());
}

struct CountingAuthorizer {
    issued: usize,
}

impl Authorizer for CountingAuthorizer {
    fn negotiation(
        &self,
        _client_id: Seq<char>,
        _scope: Option<Seq<char>>,
        _redirect_url: Option<Seq<char>>,
    ) -> Result<Negotiated, Seq<char>> {
        unreachable!()
    }

    fn authorizes(&self, _req: RequestTerms, _after: Self, _code: Seq<char>) -> bool {
        unreachable!()
    }

    fn recovered(&self, _code: Seq<char>) -> Option<GrantTerms> {
        unreachable!()
    }

    fn negotiate(&self, _params: NegotiationParams) -> Result<Negotiated, String> {
        Err("no".to_string())
    }

    fn authorize(&mut self, _req: Request) -> String {
        self.issued += 1;
        format!("code{}", self.issued)
    }

    fn recover_parameters<'a>(&'a self, _code: &'a str) -> Option<Grant<'a>> {
        None
    }
}

struct CountingIssuer {
    issued: usize,
}

impl Issuer for CountingIssuer {
    fn issues(&self, _req: RequestTerms, _after: Self, _token: IssuedToken) -> bool {
        unreachable!()
    }

    fn issue(&mut self, _req: Request) -> IssuedToken {
        self.issued += 1;
        IssuedToken {
            token: format!("t{}", self.issued),
            refresh: String::new(),
            until: Timestamp { secs: 0, nanos: 0 },
        }
    }
}

#[test]
fn vacant_provides_no_authorizer_or_issuer() {
    assert!(OptAuthorizer::opt_mut(&mut Vacant).is_none());
    assert!(OptIssuer::opt_mut(&mut Vacant).is_none());
    let mut a = CountingAuthorizer { issued: 0 };
    assert!(OptAuthorizer::opt_mut(&mut a).is_some());
    let mut i = CountingIssuer { issued: 0 };
    assert!(OptIssuer::opt_mut(&mut i).is_some());
}

#[test]
fn generic_gives_access_to_its_primitives() {
    let mut endpoint = Generic {
        registrar: Vacant,
        authorizer: CountingAuthorizer { issued: 0 },
        issuer: CountingIssuer { issued: 0 },
        solicitor: Vacant,
        scopes: Vacant,
        response: Vacant,
    };
    let url = oxide_auth::web_url::Url::parse("https://c.example/").unwrap();
    let code = endpoint.authorizer_mut().unwrap().authorize(Request {
        owner_id: "o",
        client_id: "c",
        redirect_url: &url,
        scope: "s",
    });
    assert_eq!(code, "code1");
    assert_eq!(endpoint.authorizer.issued, 1);
    let token = endpoint.issuer_mut().unwrap().issue(Request {
        owner_id: "o",
        client_id: "c",
        redirect_url: &url,
        scope: "s",
    });
    assert_eq!(token.token, "t1");
    assert_eq!(endpoint.issuer.issued, 1);

    let mut vacant = Generic {
        registrar: Vacant,
        authorizer: Vacant,
        issuer: Vacant,
        solicitor: Vacant,
        scopes: Vacant,
        response: Vacant,
    };
    assert!(vacant.authorizer_mut().is_none());
    assert!(vacant.issuer_mut().is_none());
}
