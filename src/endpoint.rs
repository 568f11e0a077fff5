//! Stream endpoints: URLs whose scheme selects the kind of sink.
use vstd::prelude::*;

verus! {

/// What `url::Url::parse` gives for a text: `None` when it is refused, else
/// the serialization, scheme, host, port and path of the parsed URL.
pub uninterp spec fn url_parts(s: Seq<char>) -> Option<(Seq<char>, Seq<char>, Option<Seq<char>>, Option<u16>, Seq<char>)>;

/// The characters of an optional text.
pub open spec fn opt_view(o: Option<String>) -> Option<Seq<char>> {
    match o {
        Some(s) => Some(s@),
        None => None,
    }
}

/// Relies on url::Url::parse and its accessors as_str, scheme, host_str,
/// port and path: the parts of the parsed URL, or `None` when parsing fails.
#[verifier::external_body]
fn parse_url(s: &str) -> (r: Option<(String, String, Option<String>, Option<u16>, String)>)
    ensures
        match r {
            None => url_parts(s@) is None,
            Some(p) => url_parts(s@) == Some((p.0@, p.1@, opt_view(p.2), p.3, p.4@)),
        },
{
    match url::Url::parse(s) {
        Ok(u) => {
            let host = match u.host_str() {
                Some(h) => Some(h.to_string()),
                None => None,
            };
            Some((u.as_str().to_string(), u.scheme().to_string(), host, u.port(), u.path().to_string()))
        },
        Err(_) => None,
    }
}

/// A text that is not a URL.
#[derive(Clone, Debug, PartialEq, Eq)]
pub struct InvalidEndpoint {
    pub text: String,
}

/// A parsed endpoint URL.
#[derive(Clone, Debug, PartialEq, Eq)]
pub struct Endpoint {
    pub text: String,
    pub scheme: String,
    pub host: Option<String>,
    pub port: Option<u16>,
    pub path: String,
}

fn copy_opt(o: &Option<String>) -> (r: Option<String>)
    ensures
        r == *o,
{
    match o {
        Some(s) => Some(s.clone()),
        None => None,
    }
}

impl Endpoint {
    /// Parses a URL into an endpoint.
    pub fn parse(s: &str) -> (r: Result<Endpoint, InvalidEndpoint>)
        ensures
            match r {
                Ok(e) => url_parts(s@) == Some((e.text@, e.scheme@, opt_view(e.host), e.port, e.path@)),
                Err(e) => url_parts(s@) is None && e.text@ == s@,
            },
    {
        match parse_url(s) {
            Some(p) => Ok(Endpoint { text: p.0, scheme: p.1, host: p.2, port: p.3, path: p.4 }),
            None => Err(InvalidEndpoint { text: s.to_owned() }),
        }
    }

    /// A copy of this endpoint.
    pub fn copy(&self) -> (r: Endpoint)
        ensures
            r == *self,
    {
        Endpoint {
            text: self.text.clone(),
            scheme: self.scheme.clone(),
            host: copy_opt(&self.host),
            port: self.port,
            path: self.path.clone(),
        }
    }

    /// The URL text of this endpoint.
    pub fn as_str(&self) -> (r: &str)
        ensures
            r@ == self.text@,
    {
        self.text.as_str()
    }
}

/// A copy of a list of endpoints.
pub fn copy_endpoints(v: &Vec<Endpoint>) -> (r: Vec<Endpoint>)
    ensures
        r@ == v@,
{
    let mut r: Vec<Endpoint> = Vec::new();
    let mut i: usize = 0;
    while i < v.len()
        invariant
            i <= v.len(),
            r@ == v@.subrange(0, i as int),
        decreases v.len() - i,
    {
        r.push(v[i].copy());
        i = i + 1;
    }
    assert(r@ =~= v@);
    r
}

} // verus!
