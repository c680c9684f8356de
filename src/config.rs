//! The backend's environment file (`KEY=VALUE` lines, `#` comments, optional
//! double quotes round a value) and the URLs derived from it.
use crate::model::BackendConfig;
use crate::text::{find_char, index_of, split_feed, split_start, trim, trim_bounds};
use vstd::prelude::*;
use vstd::string::*;

verus! {

/// The key and value that a line sets, if it sets any: blank lines, comments
/// and lines without `=` set nothing; the line is cut at its first `=`.
pub open spec fn entry_of(line: Seq<char>) -> Option<(Seq<char>, Seq<char>)> {
    let t = trim(line, false);
    if t.len() == 0 || t[0] == '#' {
        None
    } else {
        let k = index_of(t, '=');
        if k == t.len() {
            None
        } else {
            Some((trim(t.take(k), false), trim(trim(t.skip(k + 1), false), true)))
        }
    }
}

/// (port, environment) after one more line: `APP_PORT` and `APP_ENV` are
/// recognised, every other key is ignored.
pub open spec fn apply_line(st: (Seq<char>, Seq<char>), line: Seq<char>) -> (Seq<char>, Seq<char>) {
    match entry_of(line) {
        Some(e) => if e.0 == "APP_PORT"@ {
            (e.1, st.1)
        } else if e.0 == "APP_ENV"@ {
            (st.0, e.1)
        } else {
            st
        },
        None => st,
    }
}

pub open spec fn apply_lines(st: (Seq<char>, Seq<char>), lines: Seq<Seq<char>>) -> (Seq<char>, Seq<char>)
    decreases lines.len(),
{
    if lines.len() == 0 {
        st
    } else {
        apply_line(apply_lines(st, lines.drop_last()), lines.last())
    }
}

pub open spec fn default_settings() -> (Seq<char>, Seq<char>) {
    ("8080"@, "production"@)
}

/// (port, environment) that a whole file sets, the defaults where it sets none;
/// a later line overrides an earlier one.
pub open spec fn env_settings(content: Seq<char>) -> (Seq<char>, Seq<char>) {
    let sp = split_feed(split_start(), content, '\n');
    apply_line(apply_lines(default_settings(), sp.0), sp.1)
}

pub open spec fn api_url_of(host: Seq<char>, port: Seq<char>) -> Seq<char> {
    "http://"@ + host + ":"@ + port + "/api/v1"@
}

pub open spec fn ws_url_of(host: Seq<char>, port: Seq<char>) -> Seq<char> {
    "ws://"@ + host + ":"@ + port + "/api/v1/ws"@
}

fn apply_segment(s: &str, lo: usize, hi: usize, port: &mut String, env: &mut String)
    requires
        lo <= hi <= s@.len(),
    ensures
        (final(port)@, final(env)@) == apply_line((old(port)@, old(env)@), s@.subrange(lo as int, hi as int)),
{
    let ghost line = s@.subrange(lo as int, hi as int);
    let (a, b) = trim_bounds(s, lo, hi, false);
    let ghost t = s@.subrange(a as int, b as int);
    if a == b {
        return ;
    }
    assert(t[0] == s@[a as int]);
    if s.get_char(a) == '#' {
        return ;
    }
    let k = find_char(s, a, b, '=');
    if k == b {
        return ;
    }
    assert(t.take(k - a) =~= s@.subrange(a as int, k as int));
    assert(t.skip(k - a + 1) =~= s@.subrange(k + 1, b as int));
    let (ka, kb) = trim_bounds(s, a, k, false);
    let (va0, vb0) = trim_bounds(s, k + 1, b, false);
    let (va, vb) = trim_bounds(s, va0, vb0, true);
    let key = s.substring_char(ka, kb).to_owned();
    let value = s.substring_char(va, vb).to_owned();
    if key == String::from_str("APP_PORT") {
        *port = value;
    } else if key == String::from_str("APP_ENV") {
        *env = value;
    }
}

/// Reads the port and the environment out of the backend's environment file.
pub fn parse_backend_env(content: &str) -> (r: (String, String))
    ensures
        (r.0@, r.1@) == env_settings(content@),
{
    let n = content.unicode_len();
    let mut port = String::from_str("8080");
    let mut env = String::from_str("production");
    let mut start: usize = 0;
    let mut i: usize = 0;
    let ghost mut closed: Seq<Seq<char>> = Seq::empty();
    while i < n
        invariant
            n == content@.len(),
            start <= i <= n,
            split_feed(split_start(), content@.take(i as int), '\n') == (
                closed,
                content@.subrange(start as int, i as int),
            ),
            (port@, env@) == apply_lines(default_settings(), closed),
        decreases n - i,
    {
        assert(content@.take(i + 1).drop_last() =~= content@.take(i as int));
        if content.get_char(i) == '\n' {
            apply_segment(content, start, i, &mut port, &mut env);
            proof {
                let seg = content@.subrange(start as int, i as int);
                assert(closed.push(seg).drop_last() =~= closed);
                closed = closed.push(seg);
            }
            start = i + 1;
            assert(content@.subrange(start as int, i + 1) =~= Seq::<char>::empty());
        } else {
            assert(content@.subrange(start as int, i + 1) =~= content@.subrange(
                start as int,
                i as int,
            ).push(content@[i as int]));
        }
        i = i + 1;
    }
    assert(content@.take(n as int) =~= content@);
    apply_segment(content, start, n, &mut port, &mut env);
    (port, env)
}

/// The backend's settings on `host`, from the text of its environment file.
pub fn backend_config_from(host: &str, content: &str) -> (r: BackendConfig)
    ensures
        r.port@ == env_settings(content@).0,
        r.environment@ == env_settings(content@).1,
        r.api_url@ == api_url_of(host@, r.port@),
        r.ws_url@ == ws_url_of(host@, r.port@),
{
    let (port, environment) = parse_backend_env(content);
    let mut api_url = String::from_str("http://");
    api_url.append(host);
    api_url.append(":");
    api_url.append(port.as_str());
    api_url.append("/api/v1");
    let mut ws_url = String::from_str("ws://");
    ws_url.append(host);
    ws_url.append(":");
    ws_url.append(port.as_str());
    ws_url.append("/api/v1/ws");
    BackendConfig { api_url, ws_url, environment, port }
}

} // verus!
