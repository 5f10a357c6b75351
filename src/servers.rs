//! Rules on saved servers: turning one into a session request, and the
//! column assignments that an update makes.

use vstd::prelude::*;
use crate::models::{AuthMethod, CreateServerRequest, CreateSessionRequest, Server, UpdateServerRequest, port_or_default};
use crate::text::{decimal, decimal_text, text_eq};

verus! {

/// The text of an optional value, empty where it is absent.
pub open spec fn or_empty(s: Option<String>) -> Seq<char> {
    match s {
        Some(t) => t@,
        None => Seq::empty(),
    }
}

fn text_or_empty(s: &Option<String>) -> (r: String)
    ensures
        r@ == or_empty(*s),
{
    match s {
        Some(t) => t.clone(),
        None => String::new(),
    }
}

impl CreateServerRequest {
    /// The port to save: the requested one, else 22.
    pub fn effective_port(&self) -> (r: u16)
        ensures
            r == port_or_default(self.port),
    {
        match self.port {
            Some(p) => p,
            None => 22,
        }
    }
}

/// The request that opens a session on a saved server: password
/// authentication where the server says "password", key authentication
/// otherwise; a missing secret reads as empty.
pub fn session_request_for(server: &Server) -> (r: CreateSessionRequest)
    ensures
        r.host == server.host,
        r.port == Some(server.port),
        r.username == server.username,
        server.auth_method@ == "password"@ ==> (r.auth_method matches AuthMethod::Password { password }
            && password@ == or_empty(server.password)),
        server.auth_method@ != "password"@ ==> (r.auth_method matches AuthMethod::Key {
            private_key,
            passphrase,
        } && private_key@ == or_empty(server.private_key) && passphrase == server.passphrase),
{
    let auth = if text_eq(server.auth_method.as_str(), "password") {
        AuthMethod::Password { password: text_or_empty(&server.password) }
    } else {
        AuthMethod::Key {
            private_key: text_or_empty(&server.private_key),
            passphrase: match &server.passphrase {
                Some(p) => Some(p.clone()),
                None => None,
            },
        }
    };
    CreateSessionRequest {
        host: server.host.clone(),
        port: Some(server.port),
        username: server.username.clone(),
        auth_method: auth,
    }
}

/// One assignment when present: the column and the new value.
pub open spec fn assignment(column: Seq<char>, value: Option<String>) -> Seq<(Seq<char>, Seq<char>)> {
    match value {
        Some(v) => seq![(column, v@)],
        None => Seq::empty(),
    }
}

/// The columns that an update sets, in table order, with their new values.
pub open spec fn assignments_spec(req: &UpdateServerRequest) -> Seq<(Seq<char>, Seq<char>)> {
    assignment("name"@, req.name) + assignment("host"@, req.host) + match req.port {
        Some(p) => seq![("port"@, decimal(p as nat))],
        None => Seq::empty(),
    } + assignment("username"@, req.username) + assignment("auth_method"@, req.auth_method)
        + assignment("password"@, req.password) + assignment("private_key"@, req.private_key)
        + assignment("passphrase"@, req.passphrase)
}

fn push_assignment(out: &mut Vec<(String, String)>, column: &str, value: &Option<String>)
    ensures
        final(out)@.map_values(|p: (String, String)| (p.0@, p.1@)) == old(out)@.map_values(
            |p: (String, String)| (p.0@, p.1@),
        ) + assignment(column@, *value),
{
    match value {
        Some(v) => {
            out.push((String::from_str(column), v.clone()));
        },
        None => {},
    }
    assert(final(out)@.map_values(|p: (String, String)| (p.0@, p.1@)) =~= old(out)@.map_values(
        |p: (String, String)| (p.0@, p.1@),
    ) + assignment(column@, *value));
}

/// The column assignments of an update, in table order; empty when the
/// request changes nothing.
pub fn update_assignments(req: &UpdateServerRequest) -> (r: Vec<(String, String)>)
    ensures
        r@.map_values(|p: (String, String)| (p.0@, p.1@)) == assignments_spec(req),
{
    let mut out: Vec<(String, String)> = Vec::new();
    proof {
        assert(out@.map_values(|p: (String, String)| (p.0@, p.1@)) =~= Seq::<(Seq<char>, Seq<char>)>::empty());
    }
    push_assignment(&mut out, "name", &req.name);
    push_assignment(&mut out, "host", &req.host);
    let ghost before_port = out@.map_values(|p: (String, String)| (p.0@, p.1@));
    match req.port {
        Some(p) => {
            out.push((String::from_str("port"), decimal_text(p as u64)));
        },
        None => {},
    }
    proof {
        assert(out@.map_values(|p: (String, String)| (p.0@, p.1@)) =~= before_port + match req.port {
            Some(p) => seq![("port"@, decimal(p as nat))],
            None => Seq::<(Seq<char>, Seq<char>)>::empty(),
        });
    }
    push_assignment(&mut out, "username", &req.username);
    push_assignment(&mut out, "auth_method", &req.auth_method);
    push_assignment(&mut out, "password", &req.password);
    push_assignment(&mut out, "private_key", &req.private_key);
    push_assignment(&mut out, "passphrase", &req.passphrase);
    proof {
        assert(out@.map_values(|p: (String, String)| (p.0@, p.1@)) =~= assignments_spec(req));
    }
    out
}

} // verus!
