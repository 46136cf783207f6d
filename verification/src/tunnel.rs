//! The SSH tunnel's decision layer: which authentication to attempt, how a
//! key path's leading tilde expands, what endpoint to dial, and the exact
//! failure reports.
//!
//! The caller opens the TCP stream, performs the handshake and runs the
//! forwarding loop; it must hold the session behind a mutex around each
//! channel-open, release it before copying bytes, and keep the tunnel alive
//! until the last use of its local port.

use vstd::prelude::*;

use crate::config::default_port;
use crate::config::default_port_spec;
use crate::config::opt_or_int;
use crate::config::opt_str_or;
use crate::config::ConnectionConfig;
use crate::text::chars_to_string;
use crate::text::dec_str;
use crate::text::has_prefix;
use crate::text::push_word;
use crate::text::str_chars;
use crate::text::subrange_chars;
use crate::text::u64_string;

verus! {

/// Relies on dirs::home_dir: the platform's home directory, when the
/// system reports one whose path is valid UTF-8. The answer depends on the
/// environment, so nothing is promised of it.
#[verifier::external_body]
pub fn home_directory() -> Option<String> {
    dirs::home_dir().and_then(|p| p.to_str().map(|s| s.to_string()))
}

/// A key path's leading `~` replaced by the home directory, when one is
/// known; any other path is kept as it is.
pub fn expand_key_path(path: &str, home: &Option<String>) -> (r: String)
    ensures
        (has_prefix(path@, "~"@) && home is Some) ==> r@ == home->0@.add(path@.skip(1)),
        !(has_prefix(path@, "~"@) && home is Some) ==> r@ == path@,
{
    let v = str_chars(path);
    proof {
        reveal_strlit("~");
        assert("~"@.len() == 1);
        assert("~"@[0] == '~');
    }
    if v.len() > 0 && v[0] == '~' {
        proof {
            assert(v@.subrange(0, 1) =~= "~"@);
            assert(has_prefix(path@, "~"@));
        }
        match home {
            Option::Some(h) => {
                let mut out: Vec<char> = Vec::new();
                push_word(&mut out, h.as_str());
                let rest = subrange_chars(&v, 1, v.len());
                let rest_s = chars_to_string(&rest);
                push_word(&mut out, rest_s.as_str());
                proof {
                    assert(v@.subrange(1, v@.len() as int) =~= path@.skip(1));
                }
                chars_to_string(&out)
            },
            Option::None => path.to_owned(),
        }
    } else {
        proof {
            if has_prefix(path@, "~"@) {
                assert(path@.subrange(0, 1)[0] == '~');
            }
        }
        path.to_owned()
    }
}

/// `host:port`, the address the tunnel's TCP connection dials.
pub fn ssh_addr(host: &str, port: u16) -> (r: String)
    ensures
        r@ == host@.add(":"@).add(dec_str(port as nat)),
{
    let mut out: Vec<char> = Vec::new();
    push_word(&mut out, host);
    push_word(&mut out, ":");
    let p = u64_string(port as u64);
    push_word(&mut out, p.as_str());
    chars_to_string(&out)
}

/// The authentication attempts a tunnel makes: public-key first when a
/// key path is given (tilde expanded), password as fallback when one is
/// given; with neither present the tunnel cannot authenticate.
pub struct SshAuthPlan {
    pub key_path: Option<String>,
    pub password: Option<String>,
}

/// Decide the authentication attempts from the credentials: the key path
/// counts only when key authentication was chosen and the path is
/// non-empty; an empty password means none.
pub fn plan_ssh_auth(use_key: bool, key_path: &str, password: &str, home: &Option<String>) -> (r:
    SshAuthPlan)
    ensures
        r.key_path is Some <==> (use_key && key_path@.len() > 0),
        (use_key && key_path@.len() > 0) ==> r.key_path->0@ == (if has_prefix(key_path@, "~"@)
            && home is Some {
            home->0@.add(key_path@.skip(1))
        } else {
            key_path@
        }),
        r.password is Some <==> password@.len() > 0,
        password@.len() > 0 ==> r.password->0@ == password@,
{
    let kp = if use_key && !key_path.is_empty() {
        Some(expand_key_path(key_path, home))
    } else {
        None
    };
    let pw = if !password.is_empty() {
        Some(password.to_owned())
    } else {
        None
    };
    SshAuthPlan { key_path: kp, password: pw }
}

/// Everything the caller needs to build one tunnel: where the SSH server
/// is, how to authenticate, and the remote endpoint to forward to.
pub struct TunnelRequest {
    pub ssh_host: String,
    pub ssh_port: i64,
    pub ssh_user: String,
    pub auth: SshAuthPlan,
    pub remote_host: String,
    pub remote_port: i64,
}

/// The tunnel a connect attempt needs, if any: `None` unless SSH is
/// enabled; otherwise the SSH endpoint (port 22 by default), the
/// authentication plan, and the target database's host and port (the
/// backend's own default port when none is given).
pub fn tunnel_request(config: &ConnectionConfig, home: &Option<String>) -> (r: Option<
    TunnelRequest,
>)
    ensures
        r is Some <==> config.ssh_enabled,
        r is Some ==> ({
            let t = r->0;
            &&& t.ssh_host@ == opt_str_or(config.ssh_host, ""@)
            &&& t.ssh_port == opt_or_int(config.ssh_port, 22)
            &&& t.ssh_user@ == opt_str_or(config.ssh_user, ""@)
            &&& t.remote_host@ == opt_str_or(config.host, ""@)
            &&& t.remote_port == (match config.port {
                Option::Some(p) => p as int,
                Option::None => default_port_spec(config.db_type@),
            })
            &&& (t.auth.key_path is Some <==> config.ssh_key_path is Some
                && config.ssh_key_path->0@.len() > 0)
            &&& (t.auth.password is Some <==> config.ssh_password is Some
                && config.ssh_password->0@.len() > 0)
        }),
{
    if !config.ssh_enabled {
        return None;
    }
    proof {
        reveal_strlit("");
        assert(""@.len() == 0);
        assert(""@ =~= Seq::<char>::empty());
    }
    let ssh_host = match &config.ssh_host {
        Option::Some(h) => h.clone(),
        Option::None => String::new(),
    };
    let ssh_port = match config.ssh_port {
        Option::Some(p) => p,
        Option::None => 22,
    };
    let ssh_user = match &config.ssh_user {
        Option::Some(u) => u.clone(),
        Option::None => String::new(),
    };
    let key_path = match &config.ssh_key_path {
        Option::Some(k) => k.clone(),
        Option::None => String::new(),
    };
    let password = match &config.ssh_password {
        Option::Some(p) => p.clone(),
        Option::None => String::new(),
    };
    let auth = plan_ssh_auth(!key_path.as_str().is_empty(), key_path.as_str(), password.as_str(), home);
    let remote_host = match &config.host {
        Option::Some(h) => h.clone(),
        Option::None => String::new(),
    };
    let remote_port = match config.port {
        Option::Some(p) => p,
        Option::None => default_port(config.db_type.as_str()),
    };
    Some(
        TunnelRequest { ssh_host, ssh_port, ssh_user, auth, remote_host, remote_port },
    )
}

/// The report for a tunnel that could not be built.
pub fn tunnel_failed_message(detail: &str) -> (r: String)
    ensures
        r@ == "SSH tunnel failed: "@.add(detail@),
{
    let mut out: Vec<char> = Vec::new();
    push_word(&mut out, "SSH tunnel failed: ");
    push_word(&mut out, detail);
    chars_to_string(&out)
}

/// The report for a tunnel that hit its construction deadline.
pub fn tunnel_timeout_message() -> (r: String)
    ensures
        r@ == "SSH tunnel connection timed out after 20 seconds"@,
{
    "SSH tunnel connection timed out after 20 seconds".to_owned()
}

/// The report when neither key nor password authentication succeeded.
pub fn auth_failed_message() -> (r: String)
    ensures
        r@ == "SSH authentication failed - check credentials"@,
{
    "SSH authentication failed - check credentials".to_owned()
}

} // verus!
