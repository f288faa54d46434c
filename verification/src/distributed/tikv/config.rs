//! TiKV configuration for distributed coordination.

use vstd::prelude::*;
use vstd::string::{StrSliceExecFns, StringExecFns};
use super::error::TikvError;
use crate::clock::{debug_duration, duration_debug, TimeSpan};
use crate::text::{
    lemma_split_nonempty, split_on, string_views,
    chars_of, ends_with_char, owned, starts_with_char, trim, trim_bounds,
};

verus! {

/// Key prefix for all operations.
pub const KEY_PREFIX: &'static str = "/roboflow/v1/";

/// PD endpoint used when none is configured.
pub const DEFAULT_PD_ENDPOINTS: &'static str = "127.0.0.1:2379";

/// Connection timeout, in seconds, used when none is configured.
pub const DEFAULT_CONNECTION_TIMEOUT_SECS: u64 = 10;

/// The pieces with white space trimmed, empty ones left out.
pub open spec fn trimmed_nonempty(ps: Seq<Seq<char>>) -> Seq<Seq<char>>
    decreases ps.len(),
{
    if ps.len() == 0 {
        Seq::empty()
    } else if trim(ps.last()).len() > 0 {
        trimmed_nonempty(ps.drop_last()).push(trim(ps.last()))
    } else {
        trimmed_nonempty(ps.drop_last())
    }
}

/// The endpoints listed in a comma-separated string.
pub open spec fn endpoint_list(s: Seq<char>) -> Seq<Seq<char>> {
    trimmed_nonempty(split_on(s, ','))
}


/// `p` with a leading `/` added unless it has one.
pub open spec fn with_leading_slash(p: Seq<char>) -> Seq<char> {
    if p.len() > 0 && p[0] == '/' {
        p
    } else {
        seq!['/'] + p
    }
}

/// `p` with a leading and a trailing `/` added where missing.
pub open spec fn slash_wrapped(p: Seq<char>) -> Seq<char> {
    let a = with_leading_slash(p);
    if a[a.len() - 1] == '/' {
        a
    } else {
        a.push('/')
    }
}



proof fn lemma_trimmed_push(ps: Seq<Seq<char>>, p: Seq<char>)
    ensures
        trimmed_nonempty(ps.push(p)) == if trim(p).len() > 0 {
            trimmed_nonempty(ps).push(trim(p))
        } else {
            trimmed_nonempty(ps)
        },
{
    assert(ps.push(p).drop_last() =~= ps);
}

/// Appends `s[from..to]`, trimmed, to `out` unless it is empty; `cs` holds
/// the characters of `s`.
fn push_trimmed(out: &mut Vec<String>, s: &str, cs: &Vec<char>, from: usize, to: usize)
    requires
        cs@ == s@,
        from <= to <= cs@.len(),
    ensures
        string_views(final(out)@) == if trim(s@.subrange(from as int, to as int)).len() > 0 {
            string_views(old(out)@).push(trim(s@.subrange(from as int, to as int)))
        } else {
            string_views(old(out)@)
        },
{
    let (a, b) = trim_bounds(cs, from, to);
    if a < b {
        let piece = s.substring_char(a, b).to_string();
        let ghost before = out@;
        out.push(piece);
        assert(string_views(out@) =~= string_views(before).push(piece@));
    }
}

/// What `format!("{:?}", v)` gives for a list of strings: the `Debug`
/// text of `Vec<String>`.
pub uninterp spec fn debug_string_list(items: Seq<Seq<char>>) -> Seq<char>;

/// The `Debug` text of a list of strings.
///
/// Trusted wrapper of the standard `Debug` formatting of `Vec<String>`; the
/// text is named `debug_string_list` of the strings' characters.
#[verifier::external_body]
fn debug_list(v: &Vec<String>) -> (r: String)
    ensures
        r@ == debug_string_list(string_views(v@)),
{
    format!("{:?}", v)
}

/// Configuration for TiKV cluster connection.
#[derive(Debug, Clone)]
pub struct TikvConfig {
    /// PD (Placement Driver) endpoints for cluster discovery.
    pub pd_endpoints: Vec<String>,
    /// Connection timeout.
    pub connection_timeout: TimeSpan,
    /// Key prefix for all operations (defaults to `/roboflow/v1/`).
    pub key_prefix: String,
    /// CA certificate path for TLS (optional).
    pub ca_path: Option<String>,
    /// Client certificate path for TLS (optional).
    pub cert_path: Option<String>,
    /// Client key path for TLS (optional).
    pub key_path: Option<String>,
}

impl Default for TikvConfig {
    /// The default endpoint, timeout and key prefix, without TLS.
    fn default() -> (r: Self)
        ensures
            string_views(r.pd_endpoints@) == endpoint_list(DEFAULT_PD_ENDPOINTS@),
            r.connection_timeout.secs_spec() == DEFAULT_CONNECTION_TIMEOUT_SECS,
            r.connection_timeout.nanos_spec() == 0,
            r.key_prefix@ == KEY_PREFIX@,
            r.ca_path is None,
            r.cert_path is None,
            r.key_path is None,
    {
        TikvConfig::from_settings(None, None, None, None, None)
    }
}

impl TikvConfig {
    /// A configuration from optional settings (as read from the
    /// environment): a comma-separated endpoint list, a timeout in seconds
    /// and TLS file paths. Missing settings take their defaults.
    pub fn from_settings(
        pd_endpoints: Option<&str>,
        timeout_secs: Option<u64>,
        ca_path: Option<String>,
        cert_path: Option<String>,
        key_path: Option<String>,
    ) -> (r: Self)
        ensures
            string_views(r.pd_endpoints@) == endpoint_list(
                match pd_endpoints {
                    Some(s) => s@,
                    None => DEFAULT_PD_ENDPOINTS@,
                },
            ),
            r.connection_timeout.secs_spec() == match timeout_secs {
                Some(t) => t,
                None => DEFAULT_CONNECTION_TIMEOUT_SECS,
            },
            r.connection_timeout.nanos_spec() == 0,
            r.key_prefix@ == KEY_PREFIX@,
            r.ca_path == ca_path,
            r.cert_path == cert_path,
            r.key_path == key_path,
    {
        let endpoints = match pd_endpoints {
            Some(s) => s,
            None => DEFAULT_PD_ENDPOINTS,
        };
        let timeout = match timeout_secs {
            Some(t) => t,
            None => DEFAULT_CONNECTION_TIMEOUT_SECS,
        };
        TikvConfig {
            pd_endpoints: Self::parse_pd_endpoints(endpoints),
            connection_timeout: TimeSpan::from_secs(timeout),
            key_prefix: owned(KEY_PREFIX),
            ca_path,
            cert_path,
            key_path,
        }
    }

    /// Parse PD endpoints from a comma-separated string: split at commas,
    /// trim white space, drop empty pieces.
    pub fn parse_pd_endpoints(s: &str) -> (r: Vec<String>)
        ensures
            string_views(r@) == endpoint_list(s@),
    {
        let cs = chars_of(s);
        let mut out: Vec<String> = Vec::new();
        let ghost mut done: Seq<Seq<char>> = Seq::empty();
        let mut start: usize = 0;
        let mut i: usize = 0;
        proof {
            assert(cs@.take(0) =~= Seq::<char>::empty());
            assert(cs@.subrange(0, 0) =~= Seq::<char>::empty());
            assert(split_on(Seq::<char>::empty(), ',') == done.push(Seq::<char>::empty()));
        }
        while i < cs.len()
            invariant
                cs@ == s@,
                0 <= start <= i <= cs@.len(),
                split_on(cs@.take(i as int), ',') == done.push(cs@.subrange(start as int, i as int)),
                string_views(out@) == trimmed_nonempty(done),
            decreases cs.len() - i,
        {
            let ghost t = cs@.take(i as int);
            let ghost t1 = cs@.take(i + 1);
            proof {
                assert(t1.drop_last() =~= t);
                assert(t1.last() == cs@[i as int]);
                lemma_split_nonempty(t, ',');
            }
            if cs[i] == ',' {
                let ghost piece = cs@.subrange(start as int, i as int);
                push_trimmed(&mut out, s, &cs, start, i);
                proof {
                    lemma_trimmed_push(done, piece);
                    done = done.push(piece);
                    assert(cs@.subrange(i + 1, i + 1) =~= Seq::<char>::empty());
                }
                start = i + 1;
            } else {
                proof {
                    assert(cs@.subrange(start as int, i + 1) =~= cs@.subrange(
                        start as int,
                        i as int,
                    ).push(cs@[i as int]));
                    assert(done.push(cs@.subrange(start as int, i as int)).update(
                        done.len() as int,
                        cs@.subrange(start as int, i + 1),
                    ) =~= done.push(cs@.subrange(start as int, i + 1)));
                }
            }
            i = i + 1;
        }
        let ghost piece = cs@.subrange(start as int, i as int);
        push_trimmed(&mut out, s, &cs, start, i);
        proof {
            assert(cs@.take(i as int) =~= s@);
            lemma_trimmed_push(done, piece);
        }
        out
    }

    /// Create a new configuration with custom PD endpoints.
    pub fn with_pd_endpoints(pd_endpoints: &str) -> (r: Self)
        ensures
            string_views(r.pd_endpoints@) == endpoint_list(pd_endpoints@),
            r.connection_timeout.secs_spec() == DEFAULT_CONNECTION_TIMEOUT_SECS,
            r.connection_timeout.nanos_spec() == 0,
            r.key_prefix@ == KEY_PREFIX@,
            r.ca_path is None,
            r.cert_path is None,
            r.key_path is None,
    {
        TikvConfig::from_settings(Some(pd_endpoints), None, None, None, None)
    }

    /// Set a custom key prefix, adding a leading and a trailing `/` where
    /// missing.
    pub fn with_key_prefix(self, prefix: &str) -> (r: Self)
        ensures
            r.key_prefix@ == slash_wrapped(prefix@),
            r.pd_endpoints == self.pd_endpoints,
            r.connection_timeout == self.connection_timeout,
            r.ca_path == self.ca_path,
            r.cert_path == self.cert_path,
            r.key_path == self.key_path,
    {
        proof {
            reveal_strlit("/");
        }
        let mut p = if starts_with_char(prefix, '/') {
            owned(prefix)
        } else {
            let mut q = owned("/");
            q.append(prefix);
            q
        };
        assert(p@ == with_leading_slash(prefix@));
        if !ends_with_char(p.as_str(), '/') {
            p.append("/");
        }
        TikvConfig { key_prefix: p, ..self }
    }

    /// Set the connection timeout.
    pub fn with_timeout(self, timeout: TimeSpan) -> (r: Self)
        ensures
            r.connection_timeout == timeout,
            r.pd_endpoints == self.pd_endpoints,
            r.key_prefix == self.key_prefix,
            r.ca_path == self.ca_path,
            r.cert_path == self.cert_path,
            r.key_path == self.key_path,
    {
        TikvConfig { connection_timeout: timeout, ..self }
    }

    /// TLS is enabled when any certificate or key path is set.
    pub open spec fn tls_enabled(&self) -> bool {
        self.ca_path is Some || self.cert_path is Some || self.key_path is Some
    }

    /// Check if TLS is enabled.
    pub fn is_tls_enabled(&self) -> (r: bool)
        ensures
            r == self.tls_enabled(),
    {
        self.ca_path.is_some() || self.cert_path.is_some() || self.key_path.is_some()
    }

    /// The description of a configuration: the endpoints and the timeout in
    /// their `Debug` forms (the timeout as a `Duration`), TLS, and the key
    /// prefix.
    pub open spec fn description(&self) -> Seq<char> {
        "TiKV(pd_endpoints="@ + debug_string_list(string_views(self.pd_endpoints@))
            + ", timeout="@ + duration_debug(
            self.connection_timeout.secs_spec(),
            self.connection_timeout.nanos_spec(),
        ) + ", tls="@ + (
        if self.tls_enabled() {
            "enabled"@
        } else {
            "disabled"@
        }) + ", key_prefix="@ + self.key_prefix@ + ")"@
    }

    /// Build a description of the configuration for logging.
    pub fn describe(&self) -> (r: String)
        ensures
            r@ == self.description(),
    {
        let tls = if self.is_tls_enabled() {
            "enabled"
        } else {
            "disabled"
        };
        let mut out = owned("TiKV(pd_endpoints=");
        let list = debug_list(&self.pd_endpoints);
        out.append(list.as_str());
        out.append(", timeout=");
        let timeout = debug_duration(self.connection_timeout.as_secs(), self.connection_timeout.subsec_nanos());
        out.append(timeout.as_str());
        out.append(", tls=");
        out.append(tls);
        out.append(", key_prefix=");
        out.append(self.key_prefix.as_str());
        out.append(")");
        assert(out@ =~= self.description());
        out
    }

    /// Validate the configuration: at least one PD endpoint, and a key
    /// prefix that starts with `/`.
    pub fn validate(&self) -> (r: Result<(), TikvError>)
        ensures
            r is Ok <==> (self.pd_endpoints@.len() > 0 && self.key_prefix@.len() > 0
                && self.key_prefix@[0] == '/'),
            self.pd_endpoints@.len() == 0 ==> (r matches Err(TikvError::InvalidConfig(m)) && m@
                == "No PD endpoints specified"@),
            self.pd_endpoints@.len() > 0 && !(self.key_prefix@.len() > 0 && self.key_prefix@[0]
                == '/') ==> (r matches Err(TikvError::InvalidConfig(m)) && m@
                == "Key prefix must start with /"@),
    {
        if self.pd_endpoints.len() == 0 {
            return Err(TikvError::InvalidConfig(owned("No PD endpoints specified")));
        }
        if !starts_with_char(self.key_prefix.as_str(), '/') {
            return Err(TikvError::InvalidConfig(owned("Key prefix must start with /")));
        }
        Ok(())
    }
}


/// A wrapped key prefix starts and ends with `/`, and wrapping it again
/// changes nothing.
pub proof fn law_key_prefix_wrapped(p: Seq<char>)
    ensures
        slash_wrapped(p).len() > 0,
        slash_wrapped(p)[0] == '/',
        slash_wrapped(p).last() == '/',
        slash_wrapped(slash_wrapped(p)) == slash_wrapped(p),
{
}

/// Every parsed endpoint is non-empty and has no white space at either end.
pub proof fn law_endpoints_trimmed(s: Seq<char>, i: int)
    requires
        0 <= i < endpoint_list(s).len(),
    ensures
        endpoint_list(s)[i].len() > 0,
        !crate::text::is_white_space(endpoint_list(s)[i][0]),
        !crate::text::is_white_space(endpoint_list(s)[i].last()),
{
    lemma_trimmed_all_clean(split_on(s, ','), i);
}

proof fn lemma_trimmed_all_clean(ps: Seq<Seq<char>>, i: int)
    requires
        0 <= i < trimmed_nonempty(ps).len(),
    ensures
        trimmed_nonempty(ps)[i].len() > 0,
        !crate::text::is_white_space(trimmed_nonempty(ps)[i][0]),
        !crate::text::is_white_space(trimmed_nonempty(ps)[i].last()),
    decreases ps.len(),
{
    if ps.len() > 0 {
        let r = trimmed_nonempty(ps.drop_last());
        if trim(ps.last()).len() > 0 && i == r.len() {
            crate::text::law_trim_clean(ps.last());
        } else {
            lemma_trimmed_all_clean(ps.drop_last(), i);
        }
    }
}

} // verus!
