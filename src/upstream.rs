use vstd::prelude::*;
use vstd::string::{StringExecFns, StringSliceAdditionalSpecFns};
use crate::config::JlsConfig;

verus! {

/// Whether `url::Url::parse` accepts the text.
pub uninterp spec fn url_parses(text: Seq<char>) -> bool;

/// The domain that `url::Url::domain` gives for the URL parsed from the text.
pub uninterp spec fn url_domain_of(text: Seq<char>) -> Option<Seq<char>>;

/// The port that `url::Url::port` gives for the URL parsed from the text: the
/// port written in it, unless that is its scheme's default port.
pub uninterp spec fn url_port_of(text: Seq<char>) -> Option<u16>;

/// Whether `regex::Regex::new` accepts the pattern.
pub uninterp spec fn regex_compiles(pattern: Seq<char>) -> bool;

/// Whether the regex compiled from `pattern` matches anywhere in `haystack`.
pub uninterp spec fn regex_matches(pattern: Seq<char>, haystack: Seq<char>) -> bool;

#[verifier::external_type_specification]
#[verifier::external_body]
pub struct ExRegex(regex::Regex);

/// The port used for an upstream whose URL names none.
pub const DEFAULT_PORT: u16 = 443;

/// A parsed upstream URL, with what the resolver reads of it.
#[derive(Clone, Debug)]
pub struct Upstream {
    text: String,
    domain: Option<String>,
    port: Option<u16>,
}

pub struct UpstreamView {
    pub text: Seq<char>,
    pub domain: Option<Seq<char>>,
    pub port: Option<u16>,
}

pub open spec fn opt_string_view(o: Option<String>) -> Option<Seq<char>> {
    match o {
        Some(s) => Some(s@),
        None => None,
    }
}

impl View for Upstream {
    type V = UpstreamView;

    closed spec fn view(&self) -> UpstreamView {
        UpstreamView { text: self.text@, domain: opt_string_view(self.domain), port: self.port }
    }
}

/// The upstream that the text of a valid URL describes.
pub open spec fn upstream_of(text: Seq<char>) -> UpstreamView {
    UpstreamView { text, domain: url_domain_of(text), port: url_port_of(text) }
}

/// The port an upstream is reached on.
pub open spec fn port_or_default(u: UpstreamView) -> u16 {
    match u.port {
        Some(p) => p,
        None => DEFAULT_PORT,
    }
}

/// Relies on url::Url::parse, and on Url::domain and Url::port of the parsed
/// URL; the error is the parse error's message.
#[verifier::external_body]
fn parse_url(text: &str) -> (r: Result<Upstream, String>)
    ensures
        r is Ok <==> url_parses(text@),
        r matches Ok(u) ==> u@.text == text@ && u@.domain == url_domain_of(text@)
            && u@.port == url_port_of(text@),
{
    match url::Url::parse(text) {
        Ok(url) => Ok(Upstream {
            text: text.to_string(),
            domain: url.domain().map(|d| d.to_string()),
            port: url.port(),
        }),
        Err(e) => Err(e.to_string()),
    }
}

/// Relies on regex::Regex::new; the result keeps the pattern beside the regex
/// compiled from it, and the error is the regex error's message.
#[verifier::external_body]
fn compile_regex(pattern: &str) -> (r: Result<CompiledPattern, String>)
    ensures
        r is Ok <==> regex_compiles(pattern@),
        r matches Ok(c) ==> c@ == pattern@,
{
    match regex::Regex::new(pattern) {
        Ok(regex) => Ok(CompiledPattern { pattern: pattern.to_string(), regex }),
        Err(e) => Err(e.to_string()),
    }
}

impl Upstream {
    /// Parse an upstream URL.
    pub fn parse(text: &str) -> (r: Result<Upstream, String>)
        ensures
            r is Ok <==> url_parses(text@),
            r matches Ok(u) ==> u@ == upstream_of(text@),
    {
        parse_url(text)
    }

    /// The URL text this upstream was parsed from.
    pub fn as_str(&self) -> (r: &str)
        ensures
            r@ == self@.text,
    {
        self.text.as_str()
    }

    /// The domain of the URL, if its host is a domain.
    pub fn domain(&self) -> (r: Option<&str>)
        ensures
            match r {
                Some(d) => self@.domain == Some(d@),
                None => self@.domain is None,
            },
    {
        match &self.domain {
            Some(d) => Some(d.as_str()),
            None => None,
        }
    }

    /// The port to connect to: the one the URL names, else 443.
    pub fn port(&self) -> (r: u16)
        ensures
            r == port_or_default(self@),
    {
        match self.port {
            Some(p) => p,
            None => DEFAULT_PORT,
        }
    }

    /// A copy of this upstream.
    pub fn duplicate(&self) -> (r: Upstream)
        ensures
            r@ == self@,
    {
        let domain = match &self.domain {
            Some(d) => Some(d.clone()),
            None => None,
        };
        Upstream { text: self.text.clone(), domain, port: self.port }
    }
}

/// A server-name pattern together with the regex compiled from it.
#[derive(Debug)]
pub struct CompiledPattern {
    pattern: String,
    regex: regex::Regex,
}

impl View for CompiledPattern {
    type V = Seq<char>;

    closed spec fn view(&self) -> Seq<char> {
        self.pattern@
    }
}

/// A reverse-proxy rule: server names that the pattern matches go to the upstream.
#[derive(Debug)]
pub struct SniRule {
    pattern: CompiledPattern,
    upstream: Upstream,
}

pub struct RuleView {
    pub pattern: Seq<char>,
    pub upstream: UpstreamView,
}

impl View for SniRule {
    type V = RuleView;

    closed spec fn view(&self) -> RuleView {
        RuleView { pattern: self.pattern@, upstream: self.upstream@ }
    }
}

/// Relies on regex::Regex::is_match, on a regex that `compile_regex` built
/// from the pattern beside it.
#[verifier::external_body]
fn pattern_matches(p: &CompiledPattern, name: &str) -> (r: bool)
    ensures
        r == regex_matches(p@, name@),
{
    p.regex.is_match(name)
}

/// Why no upstream could be chosen for a connection.
#[derive(Clone, Debug)]
pub enum UpstreamError {
    /// No default upstream is configured.
    Empty,
    /// The client's server name differs from the default upstream's domain.
    NameMismatch { server_name: String, url: String },
    /// No reverse-proxy rule matches the server name.
    NotFound,
}

/// A malformed reverse-proxy pattern or upstream URL, with the parser's message.
#[derive(Clone, Debug)]
pub enum JlsParseError {
    RegexError(String),
    UrlError(String),
}

impl JlsParseError {
    /// A human-readable description of the error.
    pub fn message(&self) -> (r: String)
        ensures
            r@ == match self {
                JlsParseError::RegexError(e) => "Regex Parse Error: "@ + e@,
                JlsParseError::UrlError(e) => "Url Parse Error: "@ + e@,
            },
    {
        match self {
            JlsParseError::RegexError(e) => "Regex Parse Error: ".to_string().concat(e.as_str()),
            JlsParseError::UrlError(e) => "Url Parse Error: ".to_string().concat(e.as_str()),
        }
    }
}

/// What the resolver reads of a server configuration.
pub struct ServerView {
    pub pwd: Seq<char>,
    pub iv: Seq<char>,
    pub default: Option<UpstreamView>,
    pub rules: Seq<RuleView>,
}

/// The upstream of the first rule, in order, whose pattern matches `name`.
pub open spec fn first_match(rules: Seq<RuleView>, name: Seq<char>) -> Option<UpstreamView>
    decreases rules.len(),
{
    if rules.len() == 0 {
        None
    } else if regex_matches(rules[0].pattern, name) {
        Some(rules[0].upstream)
    } else {
        first_match(rules.drop_first(), name)
    }
}

/// Whether a client presenting `name` may authenticate: the default upstream
/// exists and either has no domain or has exactly this one.
pub open spec fn name_is_authorized(v: ServerView, name: Seq<char>) -> bool {
    match v.default {
        None => false,
        Some(u) => match u.domain {
            None => true,
            Some(d) => d == name,
        },
    }
}

/// Whether a client that presents no server name may authenticate: the
/// default upstream exists and has no domain to compare with.
pub open spec fn missing_name_is_authorized(v: ServerView) -> bool {
    v.default matches Some(u) && u.domain is None
}

/// The upstream for `name`: the first matching rule's, else the default.
pub open spec fn upstream_for(v: ServerView, name: Seq<char>) -> Option<UpstreamView> {
    match first_match(v.rules, name) {
        Some(u) => Some(u),
        None => v.default,
    }
}

/// Jls Server Configuration
#[derive(Default)]
pub struct JlsServerConfig {
    inner: JlsConfig,
    upstream_url: Option<Upstream>,
    sni_proxy: Vec<SniRule>,
}

impl View for JlsServerConfig {
    type V = ServerView;

    closed spec fn view(&self) -> ServerView {
        ServerView {
            pwd: self.inner.user_pwd@,
            iv: self.inner.user_iv@,
            default: match self.upstream_url {
                Some(u) => Some(u@),
                None => None,
            },
            rules: self.sni_proxy@.map_values(|r: SniRule| r@),
        }
    }
}

proof fn lemma_first_match_step(rules: Seq<RuleView>, i: int, name: Seq<char>)
    requires
        0 <= i < rules.len(),
        !regex_matches(rules[i].pattern, name),
    ensures
        first_match(rules.subrange(i, rules.len() as int), name)
            == first_match(rules.subrange(i + 1, rules.len() as int), name),
{
    assert(rules.subrange(i, rules.len() as int).drop_first()
        =~= rules.subrange(i + 1, rules.len() as int));
}

impl JlsServerConfig {
    /// Create a new jls server configuration
    pub fn new(pwd: &str, iv: &str, upstream_addr: &str) -> (r: Result<Self, JlsParseError>)
        ensures
            r is Ok <==> url_parses(upstream_addr@),
            match r {
                Ok(c) => c@ == (ServerView {
                    pwd: pwd@,
                    iv: iv@,
                    default: Some(upstream_of(upstream_addr@)),
                    rules: Seq::empty(),
                }),
                Err(e) => e is UrlError,
            },
    {
        match parse_url(upstream_addr) {
            Ok(u) => {
                let c = JlsServerConfig {
                    inner: JlsConfig::new(pwd, iv),
                    upstream_url: Some(u),
                    sni_proxy: Vec::new(),
                };
                assert(c@.rules =~= Seq::<RuleView>::empty());
                Ok(c)
            },
            Err(e) => Err(JlsParseError::UrlError(e)),
        }
    }

    /// push sni reverse proxy entry given domain name regex
    pub fn push_sni(&mut self, domain_regex: &str, url: &str) -> (r: Result<(), JlsParseError>)
        ensures
            r is Ok <==> regex_compiles(domain_regex@) && url_parses(url@),
            !regex_compiles(domain_regex@) ==> r matches Err(JlsParseError::RegexError(_)),
            regex_compiles(domain_regex@) && !url_parses(url@) ==> r matches Err(JlsParseError::UrlError(_)),
            r is Ok ==> final(self)@ == (ServerView {
                rules: old(self)@.rules.push(RuleView { pattern: domain_regex@, upstream: upstream_of(url@) }),
                ..old(self)@
            }),
            r is Err ==> final(self)@ == old(self)@,
    {
        let pattern = match compile_regex(domain_regex) {
            Ok(re) => re,
            Err(e) => return Err(JlsParseError::RegexError(e)),
        };
        let upstream = match parse_url(url) {
            Ok(u) => u,
            Err(e) => return Err(JlsParseError::UrlError(e)),
        };
        let rule = SniRule { pattern, upstream };
        self.sni_proxy.push(rule);
        proof {
            assert(self@.rules =~= old(self)@.rules.push(RuleView { pattern: domain_regex@, upstream: upstream_of(url@) }));
        }
        Ok(())
    }

    /// Verify server name and return the default upstream
    pub fn find_jls_upstream(&self, server_name: &str) -> (r: Result<&Upstream, UpstreamError>)
        ensures
            match self@.default {
                None => r matches Err(UpstreamError::Empty),
                Some(d) => if name_is_authorized(self@, server_name@) {
                    r matches Ok(u) && u@ == d
                } else {
                    r matches Err(UpstreamError::NameMismatch { server_name: s, url: t })
                        && s@ == server_name@ && t@ == d.text
                },
            },
    {
        match &self.upstream_url {
            None => Err(UpstreamError::Empty),
            Some(u) => match &u.domain {
                None => Ok(u),
                Some(d) => {
                    if string_eq(d.as_str(), server_name) {
                        Ok(u)
                    } else {
                        Err(UpstreamError::NameMismatch {
                            server_name: server_name.to_string(),
                            url: u.text.clone(),
                        })
                    }
                },
            },
        }
    }

    /// Skip client servername verification, return the default upstream directly
    pub fn get_jls_upstream(&self) -> (r: Result<&Upstream, UpstreamError>)
        ensures
            match self@.default {
                None => r matches Err(UpstreamError::Empty),
                Some(d) => r matches Ok(u) && u@ == d,
            },
    {
        match &self.upstream_url {
            Some(u) => Ok(u),
            None => Err(UpstreamError::Empty),
        }
    }

    /// Verify whether client server name match upstream url
    pub fn check_server_name(&self, server_name: &str) -> (r: bool)
        ensures
            r == name_is_authorized(self@, server_name@),
    {
        match &self.upstream_url {
            Some(u) => match &u.domain {
                None => true,
                Some(d) => string_eq(d.as_str(), server_name),
            },
            None => false,
        }
    }

    /// Whether a client without a server name passes the name check
    pub fn check_missing_server_name(&self) -> (r: bool)
        ensures
            r == missing_name_is_authorized(self@),
    {
        match &self.upstream_url {
            Some(u) => u.domain.is_none(),
            None => false,
        }
    }

    /// Find reverse proxy destination given domain name
    pub fn find_proxy_upstream(&self, domain_name: &str) -> (r: Result<&Upstream, UpstreamError>)
        ensures
            match first_match(self@.rules, domain_name@) {
                Some(t) => r matches Ok(u) && u@ == t,
                None => r matches Err(UpstreamError::NotFound),
            },
    {
        let n = self.sni_proxy.len();
        let mut i: usize = 0;
        assert(self@.rules.subrange(0, n as int) =~= self@.rules);
        while i < n
            invariant
                n == self.sni_proxy@.len(),
                n == self@.rules.len(),
                0 <= i <= n,
                first_match(self@.rules, domain_name@)
                    == first_match(self@.rules.subrange(i as int, n as int), domain_name@),
            decreases n - i,
        {
            let rule = &self.sni_proxy[i];
            assert(self@.rules[i as int] == rule@);
            if pattern_matches(&rule.pattern, domain_name) {
                return Ok(&rule.upstream);
            }
            proof {
                lemma_first_match_step(self@.rules, i as int, domain_name@);
            }
            i = i + 1;
        }
        Err(UpstreamError::NotFound)
    }

    /// Search domain name in the reverse proxy list, return the default upstream if not found
    pub fn find_upstream(&self, domain_name: &str) -> (r: Result<&Upstream, UpstreamError>)
        ensures
            match upstream_for(self@, domain_name@) {
                Some(t) => r matches Ok(u) && u@ == t,
                None => r matches Err(UpstreamError::Empty),
            },
    {
        match self.find_proxy_upstream(domain_name) {
            Ok(u) => Ok(u),
            Err(_) => self.get_jls_upstream(),
        }
    }
}

impl core::ops::Deref for JlsServerConfig {
    type Target = JlsConfig;

    fn deref(&self) -> (r: &JlsConfig)
        ensures
            r.user_pwd@ == self@.pwd,
            r.user_iv@ == self@.iv,
    {
        &self.inner
    }
}

/// Whether two strings hold the same characters.
pub fn string_eq(a: &str, b: &str) -> (r: bool)
    ensures
        r == (a@ == b@),
{
    let a_bytes = a.as_bytes();
    let b_bytes = b.as_bytes();
    if a_bytes.len() != b_bytes.len() {
        proof {
            if a@ == b@ {
                assert(a.spec_bytes() == b.spec_bytes());
            }
        }
        return false;
    }
    let mut i: usize = 0;
    while i < a_bytes.len()
        invariant
            a_bytes@ == a.spec_bytes(),
            b_bytes@ == b.spec_bytes(),
            a_bytes.len() == b_bytes.len(),
            0 <= i <= a_bytes.len(),
            forall|j: int| 0 <= j < i ==> a_bytes@[j] == b_bytes@[j],
        decreases a_bytes.len() - i,
    {
        if a_bytes[i] != b_bytes[i] {
            proof {
                if a@ == b@ {
                    assert(a.spec_bytes() == b.spec_bytes());
                }
            }
            return false;
        }
        i = i + 1;
    }
    proof {
        assert(a_bytes@ =~= b_bytes@);
        vstd::utf8::encode_utf8_decode_utf8(a@);
        vstd::utf8::encode_utf8_decode_utf8(b@);
    }
    true
}

} // verus!
