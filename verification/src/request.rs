//! The CONNECT request template: built once from the configuration, cloned
//! for every inbound connection, and rendered to its HTTP/1.1 wire text.
use vstd::prelude::*;
use vstd::string::StringExecFns;

use crate::config::Config;
use crate::encode::base64_of;
use crate::encode::base64_encode;

verus! {

/// The text whose base64 encoding goes into the authorization header:
/// `username ":" password`.
pub open spec fn spec_credential_text(username: Seq<char>, password: Seq<char>) -> Seq<char> {
    username + ":"@ + password
}

/// The value of the `Proxy-Authorization` header for a credential pair:
/// `"Basic "` followed by the base64 encoding of `username ":" password`.
pub open spec fn spec_auth_value(username: Seq<char>, password: Seq<char>) -> Seq<char> {
    "Basic "@ + base64_of(spec_credential_text(username, password))
}

/// A whole `Proxy-Authorization` header field, terminator included.
pub open spec fn spec_auth_field(value: Seq<char>) -> Seq<char> {
    "Proxy-Authorization: "@ + value + "\r\n"@
}

/// The wire text of the CONNECT request: the request line, a `Host` header
/// naming the target, the authorization field exactly when a value is
/// present, and the blank line that ends the head.
pub open spec fn spec_request_text(target: Seq<char>, auth: Option<Seq<char>>) -> Seq<char> {
    "CONNECT "@ + target + " HTTP/1.1\r\nHost: "@ + target + "\r\n"@ + (match auth {
        Some(v) => spec_auth_field(v),
        None => Seq::<char>::empty(),
    }) + "\r\n"@
}

/// The views of an optional authorization value.
pub open spec fn spec_auth_views(auth: Option<String>) -> Option<Seq<char>> {
    match auth {
        Some(v) => Some(v@),
        None => None,
    }
}

/// The immutable CONNECT request template: the target it names and, when
/// credentials are configured, the full `Proxy-Authorization` value.
#[derive(Debug)]
pub struct ConnectRequest {
    /// host:port the tunnel is asked for; also the `Host` header.
    pub target: String,
    /// `"Basic "` + base64 of `username:password`, when configured.
    pub auth: Option<String>,
}

impl ConnectRequest {
    /// Builds the template for a configuration: the target is taken as it
    /// stands, and a configured credential pair becomes the authorization
    /// value with exactly the base64 encoding of `username:password`.
    pub fn new(config: &Config) -> (r: ConnectRequest)
        requires
            config.credentials matches Some(c) ==> c.username@.len() + c.password@.len()
                < 0xFF_FFFF,
        ensures
            r.target@ == config.target@,
            match config.credentials {
                Some(c) => r.auth matches Some(v) && v@ == spec_auth_value(
                    c.username@,
                    c.password@,
                ),
                None => r.auth is None,
            },
    {
        let auth = match &config.credentials {
            Some(c) => {
                let mut text = c.username.clone();
                text.append(":");
                text.append(c.password.as_str());
                proof {
                    reveal_strlit(":");
                }
                let encoded = base64_encode(text.as_str());
                let mut value = String::from_str("Basic ");
                value.append(encoded.as_str());
                Some(value)
            },
            None => None,
        };
        ConnectRequest { target: config.target.clone(), auth }
    }

    /// Renders the template to the bytes-on-the-wire text of the CONNECT
    /// request head.
    pub fn render(&self) -> (r: String)
        ensures
            r@ == spec_request_text(self.target@, spec_auth_views(self.auth)),
    {
        let mut out = String::from_str("CONNECT ");
        out.append(self.target.as_str());
        out.append(" HTTP/1.1\r\nHost: ");
        out.append(self.target.as_str());
        out.append("\r\n");
        match &self.auth {
            Some(v) => {
                out.append("Proxy-Authorization: ");
                out.append(v.as_str());
                out.append("\r\n");
            },
            None => {},
        }
        out.append("\r\n");
        proof {
            assert(out@ =~= spec_request_text(self.target@, spec_auth_views(self.auth)));
        }
        out
    }
}

impl Clone for ConnectRequest {
    /// The template is cloned for every inbound connection and never mutated
    /// in place: the copy is the template, field for field.
    fn clone(&self) -> (r: Self)
        ensures
            r == *self,
    {
        let auth = match &self.auth {
            Some(v) => Some(v.clone()),
            None => None,
        };
        ConnectRequest { target: self.target.clone(), auth }
    }
}

/// Law: for every target and credential pair, the rendered request with
/// credentials carries the `Proxy-Authorization` field — whose value is
/// exactly `"Basic "` + base64 of `username:password` — as one contiguous
/// segment just before the closing blank line; without credentials the
/// request is exactly the request line, the `Host` field and the blank
/// line, with no authorization field between them.
pub proof fn lemma_proxy_authorization(target: Seq<char>, username: Seq<char>, password: Seq<char>)
    ensures
        ({
            let value = spec_auth_value(username, password);
            let with = spec_request_text(target, Some(value));
            let without = spec_request_text(target, None);
            &&& value == "Basic "@ + base64_of(username + ":"@ + password)
            &&& with == without.take(without.len() - 2) + spec_auth_field(value) + "\r\n"@
            &&& without == without.take(without.len() - 2) + "\r\n"@
        }),
{
    reveal_strlit("\r\n");
    let head = "CONNECT "@ + target + " HTTP/1.1\r\nHost: "@ + target + "\r\n"@;
    let value = spec_auth_value(username, password);
    let without = spec_request_text(target, None);
    assert(without =~= head + "\r\n"@);
    assert(without.take(without.len() - 2) =~= head);
    assert(spec_request_text(target, Some(value)) =~= head + spec_auth_field(value) + "\r\n"@);
}

} // verus!
