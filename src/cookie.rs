use vstd::prelude::*;
use vstd::string::*;
use crate::context::{header_value, opt_view, Htmx};
use crate::text::same_text;

verus! {

/// The position of the first `c` in `s` at or after `i`, or the length of `s`.
pub open spec fn next_of(s: Seq<char>, c: char, i: int) -> int
    decreases s.len() - i,
{
    if i < 0 || i >= s.len() {
        s.len() as int
    } else if s[i] == c {
        i
    } else {
        next_of(s, c, i + 1)
    }
}

/// Unicode white space (the `White_Space` property), which `str::trim`
/// removes.
pub open spec fn is_white(c: char) -> bool {
    ||| '\u{9}' <= c && c <= '\u{d}'
    ||| c == ' ' || c == '\u{85}' || c == '\u{a0}' || c == '\u{1680}'
    ||| '\u{2000}' <= c && c <= '\u{200a}'
    ||| c == '\u{2028}' || c == '\u{2029}' || c == '\u{202f}' || c == '\u{205f}' || c == '\u{3000}'
}

pub open spec fn trim_start(s: Seq<char>) -> Seq<char>
    decreases s.len(),
{
    if s.len() > 0 && is_white(s[0]) {
        trim_start(s.drop_first())
    } else {
        s
    }
}

pub open spec fn trim_end(s: Seq<char>) -> Seq<char>
    decreases s.len(),
{
    if s.len() > 0 && is_white(s.last()) {
        trim_end(s.drop_last())
    } else {
        s
    }
}

/// `s` without white space at either end.
pub open spec fn trim(s: Seq<char>) -> Seq<char> {
    trim_end(trim_start(s))
}

/// The name and value the cookie parser reads from `s`: the text up to the
/// first `;`, split at its first `=`, each side trimmed. No `=`, or an empty
/// name, reads nothing.
pub open spec fn cookie_pair(s: Seq<char>) -> Option<(Seq<char>, Seq<char>)> {
    let kv = s.take(next_of(s, ';', 0));
    let k = next_of(kv, '=', 0);
    if k >= kv.len() || trim(kv.take(k)).len() == 0 {
        None
    } else {
        Some((trim(kv.take(k)), trim(kv.skip(k + 1))))
    }
}

pub open spec fn opt_pair_view(r: Option<(String, String)>) -> Option<(Seq<char>, Seq<char>)> {
    match r {
        Some(p) => Some((p.0@, p.1@)),
        None => None,
    }
}

/// Relies on cookie::Cookie::parse, with Cookie::name and Cookie::value: the
/// text up to the first `;`, split at the first `=`, each side trimmed by
/// `str::trim`; no `=` or an empty name is an error.
#[verifier::external_body]
fn parse_cookie_pair(s: &str) -> (r: Option<(String, String)>)
    ensures
        opt_pair_view(r) == cookie_pair(s@),
{
    cookie::Cookie::parse(s).ok().map(|c| (c.name().to_string(), c.value().to_string()))
}

/// The `SameSite` attribute of a cookie.
#[derive(PartialEq, Eq, Structural, Clone, Copy, Debug)]
pub enum SameSite {
    Strict,
    Lax,
    NoRestriction,
}

/// How the cookie writer spells a `SameSite` value.
pub open spec fn same_site_text(v: SameSite) -> Seq<char> {
    match v {
        SameSite::Strict => "Strict"@,
        SameSite::Lax => "Lax"@,
        SameSite::NoRestriction => "None"@,
    }
}

/// The earliest and latest unix times that an expiry can be written for:
/// the first second of year -9999 and the last of year 9999.
pub open spec fn writable_time(t: i64) -> bool {
    -377705116800 <= t && t <= 253402300799
}

/// The text that the cookie writer gives for an expiry at unix time `t`.
pub uninterp spec fn http_date_of(t: i64) -> Seq<char>;

/// The start of a `Set-Cookie` value, up to the expiry.
pub open spec fn set_cookie_head(
    name: Seq<char>,
    value: Seq<char>,
    same_site: SameSite,
    secure: bool,
    path: Seq<char>,
) -> Seq<char> {
    name + "="@ + value + "; SameSite="@ + same_site_text(same_site) + (if secure {
        "; Secure"@
    } else {
        Seq::<char>::empty()
    }) + "; Path="@ + path
}

/// The `Set-Cookie` value for a cookie with these attributes.
pub open spec fn set_cookie_line(
    name: Seq<char>,
    value: Seq<char>,
    same_site: SameSite,
    secure: bool,
    path: Seq<char>,
    expires: Option<i64>,
) -> Seq<char> {
    set_cookie_head(name, value, same_site, secure, path) + match expires {
        Some(t) => "; Expires="@ + http_date_of(t),
        None => Seq::<char>::empty(),
    }
}

/// Relies on cookie::Cookie (new, set_secure, set_same_site, set_path,
/// set_expires) and its Display impl, which writes `name=value` and then
/// each attribute set, and on time::OffsetDateTime::from_unix_timestamp,
/// which takes every time from year -9999 to year 9999 and refuses others.
#[verifier::external_body]
fn render_set_cookie(
    name: &str,
    value: &str,
    same_site: SameSite,
    secure: bool,
    path: &str,
    expires: Option<i64>,
) -> (r: Option<String>)
    ensures
        (expires matches Some(t) ==> writable_time(t)) ==> r is Some,
        r matches Some(s) ==> s@ == set_cookie_head(name@, value@, same_site, secure, path@)
            + match expires {
            Some(t) => "; Expires="@ + http_date_of(t),
            None => Seq::<char>::empty(),
        },
{
    let mut c = cookie::Cookie::new(name.to_string(), value.to_string());
    c.set_secure(secure);
    c.set_same_site(match same_site {
        SameSite::Strict => cookie::SameSite::Strict,
        SameSite::Lax => cookie::SameSite::Lax,
        SameSite::NoRestriction => cookie::SameSite::None,
    });
    c.set_path(path.to_string());
    if let Some(t) = expires {
        match cookie::time::OffsetDateTime::from_unix_timestamp(t) {
            Ok(at) => c.set_expires(at),
            Err(_) => return None,
        }
    }
    Some(c.to_string())
}

/// Relies on time::OffsetDateTime::now_utc and unix_timestamp: the time now,
/// of which nothing is promised.
#[verifier::external_body]
fn now_unix() -> (r: i64) {
    cookie::time::OffsetDateTime::now_utc().unix_timestamp()
}

/// The value of the `Cookie` header, or nothing.
pub open spec fn cookie_header(hs: Seq<(Seq<char>, Seq<char>)>) -> Seq<char> {
    match header_value(hs, "Cookie"@) {
        Some(v) => v,
        None => Seq::<char>::empty(),
    }
}

/// The value of the first cookie named `name` among the `;`-separated
/// pieces of `s` from position `i` on.
pub open spec fn lookup_from(s: Seq<char>, name: Seq<char>, i: int) -> Option<Seq<char>>
    decreases s.len() - i,
{
    if i < 0 || i > s.len() {
        None
    } else {
        let e = next_of(s, ';', i);
        if e < i || e > s.len() {
            None
        } else {
            let p = cookie_pair(s.subrange(i, e));
            if p is Some && p.unwrap().0 == name {
                Some(p.unwrap().1)
            } else if e >= s.len() {
                None
            } else {
                lookup_from(s, name, e + 1)
            }
        }
    }
}

/// The value of the first cookie named `name` in a `Cookie` header.
pub open spec fn cookie_lookup(s: Seq<char>, name: Seq<char>) -> Option<Seq<char>> {
    lookup_from(s, name, 0)
}

proof fn lemma_next_of(s: Seq<char>, c: char, i: int, j: int)
    requires
        0 <= i <= j <= s.len(),
        forall|k: int| i <= k < j ==> s[k] != c,
        j == s.len() || s[j] == c,
    ensures
        next_of(s, c, i) == j,
    decreases j - i,
{
    if i < j {
        lemma_next_of(s, c, i + 1, j);
    }
}

/// When a cookie ends its value.
pub enum Expiration {
    /// At this unix time, in seconds.
    DateTime(i64),
    /// When the browsing session ends.
    Session,
}

/// The attributes of a cookie about to be set.
pub struct CookieValue {
    pub value: String,
    pub same_site: SameSite,
    pub secure: bool,
    pub path: String,
    pub expires: Option<i64>,
}

/// `b` has the attributes of `a`, except perhaps its expiry.
pub open spec fn same_but_expiry(a: CookieValue, b: CookieValue) -> bool {
    a.value == b.value && a.same_site == b.same_site && a.secure == b.secure && a.path == b.path
}

/// Reads a named cookie from the request, or composes one for the response.
pub struct CookieBuilder {
    pub name: String,
    pub cookie: Option<CookieValue>,
}

impl Htmx {
    /// A builder for the cookie named `name`.
    pub fn cookie(&self, name: &str) -> (r: CookieBuilder)
        ensures
            r.name@ == name@,
            r.cookie is None,
    {
        CookieBuilder::new(name)
    }
}

/// `t` moved on by `seconds`, held at the largest time there is.
pub open spec fn later(t: i64, seconds: i64) -> i64 {
    if t as int + seconds as int > i64::MAX {
        i64::MAX
    } else {
        (t + seconds) as i64
    }
}

impl CookieBuilder {
    pub fn new(name: &str) -> (r: CookieBuilder)
        ensures
            r.name@ == name@,
            r.cookie is None,
    {
        CookieBuilder { name: name.to_owned(), cookie: None }
    }

    /// Composes the cookie's value, with the defaults: same-site strict,
    /// secure, path `/`, no expiry. A builder holds one value only.
    pub fn value(self, value: &str) -> (r: CookieBuilder)
        requires
            self.cookie is None,
        ensures
            r.name == self.name,
            r.cookie matches Some(c) && c.value@ == value@ && c.same_site == SameSite::Strict
                && c.secure && c.path@ == "/"@ && c.expires is None,
    {
        CookieBuilder {
            name: self.name,
            cookie: Some(
                CookieValue {
                    value: value.to_owned(),
                    same_site: SameSite::Strict,
                    secure: true,
                    path: "/".to_owned(),
                    expires: None,
                },
            ),
        }
    }

    /// Sets when the cookie expires.
    pub fn expires(self, at: Expiration) -> (r: CookieBuilder)
        requires
            self.cookie is Some,
        ensures
            r.name == self.name,
            r.cookie matches Some(c) && same_but_expiry(self.cookie.unwrap(), c) && c.expires
                == match at {
                Expiration::DateTime(t) => Some(t),
                Expiration::Session => None,
            },
    {
        let t = match at {
            Expiration::DateTime(t) => Some(t),
            Expiration::Session => None,
        };
        self.with_expiry(t)
    }

    fn with_expiry(self, t: Option<i64>) -> (r: CookieBuilder)
        requires
            self.cookie is Some,
        ensures
            r.name == self.name,
            r.cookie matches Some(c) && same_but_expiry(self.cookie.unwrap(), c) && c.expires == t,
    {
        match self.cookie {
            Some(c) => CookieBuilder {
                name: self.name,
                cookie: Some(
                    CookieValue {
                        value: c.value,
                        same_site: c.same_site,
                        secure: c.secure,
                        path: c.path,
                        expires: t,
                    },
                ),
            },
            None => CookieBuilder { name: self.name, cookie: None },
        }
    }

    /// Sets the cookie to expire `seconds` after the unix time `now`.
    pub fn expire_after(self, now: i64, seconds: i64) -> (r: CookieBuilder)
        requires
            self.cookie is Some,
            seconds >= 0,
        ensures
            r.name == self.name,
            r.cookie matches Some(c) && same_but_expiry(self.cookie.unwrap(), c) && c.expires
                == Some(later(now, seconds)),
    {
        let t: i64 = if now > i64::MAX - seconds {
            i64::MAX
        } else {
            now + seconds
        };
        self.with_expiry(Some(t))
    }

    /// Sets the cookie to expire an hour from now.
    pub fn expire_in_one_hour(self) -> (r: CookieBuilder)
        requires
            self.cookie is Some,
        ensures
            r.name == self.name,
            r.cookie matches Some(c) && same_but_expiry(self.cookie.unwrap(), c) && exists|
                now: i64,
            | c.expires == Some(later(now, 3600)),
    {
        let now = now_unix();
        self.expire_after(now, 3600)
    }

    /// Sets the cookie to expire a day from now.
    pub fn expire_in_one_day(self) -> (r: CookieBuilder)
        requires
            self.cookie is Some,
        ensures
            r.name == self.name,
            r.cookie matches Some(c) && same_but_expiry(self.cookie.unwrap(), c) && exists|
                now: i64,
            | c.expires == Some(later(now, 86400)),
    {
        let now = now_unix();
        self.expire_after(now, 86400)
    }

    /// Sets the cookie to expire a week from now.
    pub fn expire_in_one_week(self) -> (r: CookieBuilder)
        requires
            self.cookie is Some,
        ensures
            r.name == self.name,
            r.cookie matches Some(c) && same_but_expiry(self.cookie.unwrap(), c) && exists|
                now: i64,
            | c.expires == Some(later(now, 604800)),
    {
        let now = now_unix();
        self.expire_after(now, 604800)
    }

    /// Sets whether the cookie is sent over secure connections only.
    pub fn secure(self, value: bool) -> (r: CookieBuilder)
        requires
            self.cookie is Some,
        ensures
            r.name == self.name,
            r.cookie matches Some(c) && c.value == self.cookie.unwrap().value && c.same_site
                == self.cookie.unwrap().same_site && c.secure == value && c.path
                == self.cookie.unwrap().path && c.expires == self.cookie.unwrap().expires,
    {
        match self.cookie {
            Some(c) => CookieBuilder {
                name: self.name,
                cookie: Some(
                    CookieValue {
                        value: c.value,
                        same_site: c.same_site,
                        secure: value,
                        path: c.path,
                        expires: c.expires,
                    },
                ),
            },
            None => CookieBuilder { name: self.name, cookie: None },
        }
    }

    /// The value of the request's first cookie with this name.
    pub fn get(&self, htmx: &Htmx) -> (r: Option<String>)
        requires
            self.cookie is None,
        ensures
            opt_view(r) == cookie_lookup(cookie_header(htmx.req.headers_view()), self.name@),
    {
        let header = match htmx.req.get_header("Cookie") {
            Some(h) => h,
            None => String::new(),
        };
        assert(header@ == cookie_header(htmx.req.headers_view()));
        let s = header.as_str();
        assert(s@ == cookie_header(htmx.req.headers_view()));
        let n = s.unicode_len();
        let mut start: usize = 0;
        loop
            invariant
                n == s@.len(),
                s@ == cookie_header(htmx.req.headers_view()),
                start <= n,
                lookup_from(s@, self.name@, 0) == lookup_from(s@, self.name@, start as int),
            decreases n - start,
        {
            let mut e: usize = start;
            while e < n
                invariant
                    n == s@.len(),
                    start <= e <= n,
                    forall|k: int| start <= k < e ==> s@[k] != ';',
                ensures
                    start <= e <= n,
                    forall|k: int| start <= k < e ==> s@[k] != ';',
                    e == n || s@[e as int] == ';',
                decreases n - e,
            {
                if s.get_char(e) == ';' {
                    break;
                }
                e += 1;
            }
            proof {
                lemma_next_of(s@, ';', start as int, e as int);
            }
            let piece = s.substring_char(start, e);
            let found = parse_cookie_pair(piece);
            assert(lookup_from(s@, self.name@, start as int) == {
                let p = cookie_pair(piece@);
                if p is Some && p.unwrap().0 == self.name@ {
                    Some(p.unwrap().1)
                } else if e >= n {
                    None
                } else {
                    lookup_from(s@, self.name@, e + 1)
                }
            });
            assert(opt_pair_view(found) == cookie_pair(piece@));
            match found {
                Some(p) => {
                    if same_text(p.0.as_str(), self.name.as_str()) {
                        assert(cookie_pair(piece@) == Some((p.0@, p.1@)));
                        return Some(p.1);
                    }
                },
                None => {},
            }
            if e >= n {
                return None;
            }
            start = e + 1;
        }
    }

    /// Adds the composed cookie to the response as a `Set-Cookie` header.
    /// Returns false, and changes nothing, only where the expiry is a time
    /// that cannot be written.
    pub fn set(&self, htmx: &mut Htmx) -> (r: bool)
        requires
            self.cookie is Some,
        ensures
            final(htmx).req == old(htmx).req,
            final(htmx).res.status_view() == old(htmx).res.status_view(),
            (self.cookie.unwrap().expires matches Some(t) ==> writable_time(t)) ==> r,
            r ==> final(htmx).res.headers_view() == old(htmx).res.headers_view().push(
                (
                    "Set-Cookie"@,
                    set_cookie_line(
                        self.name@,
                        self.cookie.unwrap().value@,
                        self.cookie.unwrap().same_site,
                        self.cookie.unwrap().secure,
                        self.cookie.unwrap().path@,
                        self.cookie.unwrap().expires,
                    ),
                ),
            ),
            !r ==> final(htmx).res.headers_view() == old(htmx).res.headers_view(),
    {
        match &self.cookie {
            Some(c) => {
                match render_set_cookie(
                    self.name.as_str(),
                    c.value.as_str(),
                    c.same_site,
                    c.secure,
                    c.path.as_str(),
                    c.expires,
                ) {
                    Some(line) => {
                        htmx.res.set_header("Set-Cookie", line.as_str());
                        true
                    },
                    None => false,
                }
            },
            None => false,
        }
    }
}

/// `s` has no white space at either end.
pub open spec fn is_trimmed(s: Seq<char>) -> bool {
    s.len() == 0 || (!is_white(s[0]) && !is_white(s.last()))
}

proof fn lemma_trim_trimmed(s: Seq<char>)
    requires
        is_trimmed(s),
    ensures
        trim(s) == s,
{
}

/// A cookie that is set and then read back, from a request whose `Cookie`
/// header carries the `Set-Cookie` value that was written, has the value it
/// was set with. This holds for every name and value that hold no `;`, have
/// no white space at either end, and where the name is not empty and holds
/// no `=`.
pub proof fn lemma_cookie_round_trip(
    name: Seq<char>,
    value: Seq<char>,
    same_site: SameSite,
    secure: bool,
    path: Seq<char>,
    expires: Option<i64>,
)
    requires
        name.len() > 0,
        !name.contains(';'),
        !name.contains('='),
        !value.contains(';'),
        is_trimmed(name),
        is_trimmed(value),
    ensures
        cookie_lookup(set_cookie_line(name, value, same_site, secure, path, expires), name) == Some(
            value,
        ),
{
    let line = set_cookie_line(name, value, same_site, secure, path, expires);
    let piece = name + "="@ + value;
    let rest = "; SameSite="@ + same_site_text(same_site) + (if secure {
        "; Secure"@
    } else {
        Seq::<char>::empty()
    }) + "; Path="@ + path + match expires {
        Some(t) => "; Expires="@ + http_date_of(t),
        None => Seq::<char>::empty(),
    };
    reveal_strlit("=");
    reveal_strlit("; SameSite=");
    assert(line =~= piece + rest);
    let e: int = name.len() as int + 1 + value.len() as int;
    assert(line[e] == ';');
    assert forall|k: int| 0 <= k < e implies line[k] != ';' by {
        if k < name.len() {
            assert(line[k] == name[k]);
        } else if k > name.len() {
            assert(line[k] == value[k - name.len() - 1]);
        }
    }
    lemma_next_of(line, ';', 0, e);
    assert(line.subrange(0, e) =~= piece);
    assert forall|k: int| 0 <= k < piece.len() implies piece[k] != ';' by {
        assert(line[k] == piece[k]);
    }
    lemma_next_of(piece, ';', 0, piece.len() as int);
    assert(piece.take(piece.len() as int) =~= piece);
    assert forall|k: int| 0 <= k < name.len() implies piece[k] != '=' by {
        assert(piece[k] == name[k]);
    }
    lemma_next_of(piece, '=', 0, name.len() as int);
    assert(piece.take(name.len() as int) =~= name);
    assert(piece.skip(name.len() as int + 1) =~= value);
    lemma_trim_trimmed(name);
    lemma_trim_trimmed(value);
    assert(cookie_pair(piece) == Some((name, value)));
}

} // verus!
