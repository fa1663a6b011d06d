//! Cookie values as the protocol exchanges them: created client-side
//! before being sent, or received from the server as a full record. The
//! wire field names are part of the protocol contract and are rendered
//! exactly, optional fields being omitted rather than defaulted.

use vstd::prelude::*;
use vstd::string::StringExecFns;

use crate::json::Json;
use crate::json::JsonV;

verus! {

/// The cookie's same-site policy. On the wire the third variant is
/// spelled `"None"`: it places no restriction on cross-site sending.
#[derive(Clone, Copy, Debug, PartialEq, Eq, Structural)]
pub enum SameSite {
    Strict,
    Lax,
    NoRestriction,
}

/// The wire spelling of a same-site policy.
pub open spec fn spec_same_site_str(s: SameSite) -> Seq<char> {
    match s {
        SameSite::Strict => "Strict"@,
        SameSite::Lax => "Lax"@,
        SameSite::NoRestriction => "None"@,
    }
}

/// The wire spelling of a same-site policy.
pub fn same_site_str(s: SameSite) -> (r: &'static str)
    ensures
        r@ == spec_same_site_str(s),
{
    match s {
        SameSite::Strict => "Strict",
        SameSite::Lax => "Lax",
        SameSite::NoRestriction => "None",
    }
}

/// A cookie record. Only name and value are required; every other field
/// is sent only when set. Expiry is in seconds since the epoch.
#[derive(Debug, Clone, PartialEq, Eq)]
pub struct Cookie {
    pub name: String,
    pub value: String,
    pub path: Option<String>,
    pub domain: Option<String>,
    pub secure: Option<bool>,
    pub http_only: Option<bool>,
    pub expiry: Option<i64>,
    pub same_site: Option<SameSite>,
}

impl Cookie {
    /// A cookie with the given name and value and nothing else set.
    pub fn new(name: String, value: String) -> (r: Cookie)
        ensures
            r == (Cookie {
                name,
                value,
                path: None,
                domain: None,
                secure: None,
                http_only: None,
                expiry: None,
                same_site: None,
            }),
    {
        Cookie {
            name,
            value,
            path: None,
            domain: None,
            secure: None,
            http_only: None,
            expiry: None,
            same_site: None,
        }
    }

    pub fn set_path(&mut self, path: String)
        ensures
            *final(self) == (Cookie { path: Some(path), ..*old(self) }),
    {
        self.path = Some(path);
    }

    pub fn set_domain(&mut self, domain: String)
        ensures
            *final(self) == (Cookie { domain: Some(domain), ..*old(self) }),
    {
        self.domain = Some(domain);
    }

    pub fn set_secure(&mut self, secure: bool)
        ensures
            *final(self) == (Cookie { secure: Some(secure), ..*old(self) }),
    {
        self.secure = Some(secure);
    }

    pub fn set_http_only(&mut self, http_only: bool)
        ensures
            *final(self) == (Cookie { http_only: Some(http_only), ..*old(self) }),
    {
        self.http_only = Some(http_only);
    }

    pub fn set_expiry(&mut self, expiry: i64)
        ensures
            *final(self) == (Cookie { expiry: Some(expiry), ..*old(self) }),
    {
        self.expiry = Some(expiry);
    }

    pub fn set_same_site(&mut self, same_site: SameSite)
        ensures
            *final(self) == (Cookie { same_site: Some(same_site), ..*old(self) }),
    {
        self.same_site = Some(same_site);
    }

    /// The cookie's wire entries, in the protocol's field order and with
    /// the protocol's exact field names; an unset field is omitted.
    pub open spec fn spec_entries(self) -> Seq<(Seq<char>, JsonV)> {
        seq![("name"@, JsonV::Str(self.name@)), ("value"@, JsonV::Str(self.value@))] + (
        if self.path is Some {
            seq![("path"@, JsonV::Str(self.path->0@))]
        } else {
            Seq::empty()
        }) + (if self.domain is Some {
            seq![("domain"@, JsonV::Str(self.domain->0@))]
        } else {
            Seq::empty()
        }) + (if self.secure is Some {
            seq![("secure"@, JsonV::Bool(self.secure->0))]
        } else {
            Seq::empty()
        }) + (if self.http_only is Some {
            seq![("httpOnly"@, JsonV::Bool(self.http_only->0))]
        } else {
            Seq::empty()
        }) + (if self.expiry is Some {
            seq![("expiry"@, JsonV::Int(self.expiry->0 as int))]
        } else {
            Seq::empty()
        }) + (if self.same_site is Some {
            seq![("sameSite"@, JsonV::Str(spec_same_site_str(self.same_site->0)))]
        } else {
            Seq::empty()
        })
    }
}

/// Renders the cookie as its wire object.
#[verifier::rlimit(60)]
pub fn cookie_body(c: &Cookie) -> (r: Json)
    ensures
        r@ == JsonV::Obj(c.spec_entries()),
{
    let mut entries: Vec<(String, Json)> = Vec::new();
    entries.push((String::from_str("name"), Json::Str(c.name.clone())));
    entries.push((String::from_str("value"), Json::Str(c.value.clone())));
    if let Some(p) = &c.path {
        entries.push((String::from_str("path"), Json::Str(p.clone())));
    }
    if let Some(d) = &c.domain {
        entries.push((String::from_str("domain"), Json::Str(d.clone())));
    }
    if let Some(s) = c.secure {
        entries.push((String::from_str("secure"), Json::Bool(s)));
    }
    if let Some(h) = c.http_only {
        entries.push((String::from_str("httpOnly"), Json::Bool(h)));
    }
    if let Some(e) = c.expiry {
        entries.push((String::from_str("expiry"), Json::Int(e)));
    }
    if let Some(s) = c.same_site {
        entries.push((String::from_str("sameSite"), Json::Str(String::from_str(same_site_str(s)))));
    }
    let r = Json::Object(entries);
    proof {
        reveal_with_fuel(crate::json::json_view, 2);
        assert(r@ is Obj);
        assert(r@->Obj_0 =~~= c.spec_entries());
        assert(r@ =~~= JsonV::Obj(c.spec_entries()));
    }
    r
}

} // verus!
