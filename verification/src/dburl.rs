use vstd::prelude::*;
use vstd::string::StrSliceExecFns;
use vstd::string::StringExecFns;

use crate::error::Error;
use crate::pool::Config;

verus! {

/// Whether the connection URL is well-formed (accepted by the URL parser).
pub uninterp spec fn url_ok(s: Seq<char>) -> bool;

/// The host component the URL parser reads out of this text, if any.
pub uninterp spec fn url_host_of(s: Seq<char>) -> Option<Seq<char>>;

/// The explicit port the URL parser reads out of this text, if any.
pub uninterp spec fn url_port_of(s: Seq<char>) -> Option<u16>;

/// The username component the URL parser reads out of this text
/// (empty when the URL carries none).
pub uninterp spec fn url_username_of(s: Seq<char>) -> Seq<char>;

/// The password component the URL parser reads out of this text, if any.
pub uninterp spec fn url_password_of(s: Seq<char>) -> Option<Seq<char>>;

/// The path component the URL parser reads out of this text.
pub uninterp spec fn url_path_of(s: Seq<char>) -> Seq<char>;

/// The components of a parsed URL, as plain values.
struct UrlParts {
    host: Option<String>,
    port: Option<u16>,
    username: String,
    password: Option<String>,
    path: String,
}

/// The view of an optional string.
pub open spec fn opt_view(o: Option<String>) -> Option<Seq<char>> {
    match o {
        Some(s) => Some(s@),
        None => None,
    }
}

/// Relies on url's `Url::parse` and its accessors `host_str`, `port`,
/// `username`, `password` and `path`: each is a pure function of the input
/// text alone, reading a slice of the parsed serialization, so their results
/// here carry the names declared above.
#[verifier::external_body]
fn parse_url_parts(s: &str) -> (r: Option<UrlParts>)
    ensures
        r is Some <==> url_ok(s@),
        r matches Some(p) ==> {
            &&& opt_view(p.host) == url_host_of(s@)
            &&& p.port == url_port_of(s@)
            &&& p.username@ == url_username_of(s@)
            &&& opt_view(p.password) == url_password_of(s@)
            &&& p.path@ == url_path_of(s@)
        },
{
    match url::Url::parse(s) {
        Ok(u) => Some(UrlParts {
            host: u.host_str().map(|h| h.to_string()),
            port: u.port(),
            username: u.username().to_string(),
            password: u.password().map(|p| p.to_string()),
            path: u.path().to_string(),
        }),
        Err(_) => None,
    }
}

/// The text with every leading slash removed.
pub open spec fn without_leading_slashes(s: Seq<char>) -> Seq<char>
    decreases s.len(),
{
    if s.len() > 0 && s[0] == '/' {
        without_leading_slashes(s.subrange(1, s.len() as int))
    } else {
        s
    }
}

proof fn lemma_without_leading_slashes_at(s: Seq<char>, i: int)
    requires
        0 <= i <= s.len(),
        forall|j: int| 0 <= j < i ==> s[j] == '/',
        i < s.len() ==> s[i] != '/',
    ensures
        without_leading_slashes(s) == s.subrange(i, s.len() as int),
    decreases i,
{
    if i == 0 {
        assert(s.subrange(0, s.len() as int) =~= s);
    } else {
        let t = s.subrange(1, s.len() as int);
        lemma_without_leading_slashes_at(t, i - 1);
        assert(t.subrange(i - 1, t.len() as int) =~= s.subrange(i, s.len() as int));
    }
}

/// Remove every leading slash from the text.
fn trim_leading_slashes(s: &str) -> (r: String)
    ensures
        r@ == without_leading_slashes(s@),
{
    let n = s.unicode_len();
    let mut i: usize = 0;
    while i < n
        invariant_except_break
            i <= n,
            n == s@.len(),
            forall|j: int| 0 <= j < i ==> s@[j] == '/',
        ensures
            i <= n,
            n == s@.len(),
            forall|j: int| 0 <= j < i ==> s@[j] == '/',
            i < n ==> s@[i as int] != '/',
        decreases n - i,
    {
        if s.get_char(i) != '/' {
            break;
        }
        i = i + 1;
    }
    let tail = s.substring_char(i, n);
    proof {
        lemma_without_leading_slashes_at(s@, i as int);
    }
    String::from_str(tail)
}

/// What a connection URL resolves to: the database name (the URL path with
/// its leading slashes removed), the host if the URL names one, the explicit
/// port or the backing store's conventional one, the username, and the
/// password if the URL carries one.
#[derive(Debug, Clone)]
pub struct ConnectionParams {
    pub dbname: String,
    pub host: Option<String>,
    pub port: u16,
    pub user: String,
    pub password: Option<String>,
}

/// The conventional port used when the URL names none.
pub const FALLBACK_PORT: u16 = 5432;

/// The port a connection URL resolves to.
pub open spec fn resolved_port(s: Seq<char>) -> u16 {
    match url_port_of(s) {
        Some(p) => p,
        None => FALLBACK_PORT,
    }
}

impl ConnectionParams {
    /// The parameters agree with what the URL parser reads from this text.
    pub open spec fn matches_url(&self, s: Seq<char>) -> bool {
        &&& self.dbname@ == without_leading_slashes(url_path_of(s))
        &&& opt_view(self.host) == url_host_of(s)
        &&& self.port == resolved_port(s)
        &&& self.user@ == url_username_of(s)
        &&& opt_view(self.password) == url_password_of(s)
    }
}

/// Resolve a connection URL into connection parameters. Succeeds exactly on
/// well-formed URLs; a malformed one is a configuration error, reported with
/// a non-empty message and no parameters.
pub fn parse_connection_params(database_url: &str) -> (r: Result<ConnectionParams, Error>)
    ensures
        r is Ok <==> url_ok(database_url@),
        r matches Ok(p) ==> p.matches_url(database_url@),
        r matches Err(e) ==> (e matches Error::Config(m) && m@ == "invalid database url"@),
{
    match parse_url_parts(database_url) {
        Some(parts) => {
            let dbname = trim_leading_slashes(parts.path.as_str());
            let port = match parts.port {
                Some(p) => p,
                None => FALLBACK_PORT,
            };
            Ok(ConnectionParams {
                dbname,
                host: parts.host,
                port,
                user: parts.username,
                password: parts.password,
            })
        }
        None => Err(Error::Config(String::from_str("invalid database url"))),
    }
}

/// Everything the driver needs to build the real pool: the connection
/// parameters resolved from the configured URL and the configured capacity.
#[derive(Debug, Clone)]
pub struct PoolPlan {
    pub params: ConnectionParams,
    pub max_size: usize,
}

/// Resolve a startup configuration into a pool plan. Succeeds exactly when
/// the configured URL is well-formed; the plan keeps the configured capacity
/// and the resolved connection parameters.
pub fn plan_pool(config: &Config) -> (r: Result<PoolPlan, Error>)
    ensures
        r is Ok <==> url_ok(config.database_url@),
        r matches Ok(plan) ==> {
            &&& plan.params.matches_url(config.database_url@)
            &&& plan.max_size == config.database_pool_max_size
        },
        r matches Err(e) ==> e is Config,
{
    match parse_connection_params(config.database_url.as_str()) {
        Ok(params) => Ok(PoolPlan { params, max_size: config.database_pool_max_size }),
        Err(e) => Err(e),
    }
}

} // verus!
