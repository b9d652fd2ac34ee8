//! Configuration sources: what an environment or a remote endpoint gives is
//! turned into a configuration here; reading the variables and fetching the
//! endpoint happen outside the library.

use vstd::prelude::*;
use crate::config::{EnvironmentConfigSource, ConfigSourceEventType};
use crate::dynamic_config::{
    DynamicConfig, DynamicConfigView, DynamicConfigBuilder, default_dynamic_config, fields_problem,
    byte_len, MAX_TAG_VALUE_BYTES, NANOS_PER_SECOND,
};
use crate::error::Error;
use crate::pairs::{unique_keys, pairs_map, insert_pair};
use crate::text::{owned, concat2, concat3, text_eq};

verus! {

/// An event reported by a configuration source.
#[derive(Debug)]
pub struct ConfigSourceEvent {
    /// The source that reported it.
    pub source_id: String,
    /// Kind of event.
    pub event_type: ConfigSourceEventType,
    /// The new configuration, when one was loaded.
    pub config: Option<DynamicConfig>,
    /// What went wrong, for an error.
    pub error: Option<String>,
}

/// Whether the character is an ASCII decimal digit.
pub open spec fn is_decimal_digit(c: char) -> bool {
    '0' <= c && c <= '9'
}

/// The number that a sequence of decimal digits writes.
pub open spec fn digits_value(s: Seq<char>) -> nat
    decreases s.len(),
{
    if s.len() == 0 {
        0
    } else {
        digits_value(s.drop_last()) * 10 + ((s.last() as int) - ('0' as int)) as nat
    }
}

/// The number that a text writes as an unsigned integer, the way `str::parse`
/// reads one: an optional `+`, then one or more decimal digits, nothing else.
pub open spec fn unsigned_value(s: Seq<char>) -> Option<nat> {
    if unsigned_body(s).len() > 0 && all_decimal_digits(unsigned_body(s)) {
        Some(digits_value(unsigned_body(s)))
    } else {
        None
    }
}

/// The text without a leading `+`.
pub open spec fn unsigned_body(s: Seq<char>) -> Seq<char> {
    if s.len() > 0 && s[0] == '+' { s.drop_first() } else { s }
}

/// Whether every character is a decimal digit.
pub open spec fn all_decimal_digits(s: Seq<char>) -> bool {
    forall|i: int| 0 <= i < s.len() ==> is_decimal_digit(#[trigger] s[i])
}

proof fn lemma_digits_value_grows(s: Seq<char>, n: int)
    requires
        0 <= n <= s.len(),
        forall|i: int| 0 <= i < s.len() ==> is_decimal_digit(#[trigger] s[i]),
    ensures
        digits_value(s.take(n)) <= digits_value(s),
    decreases s.len() - n,
{
    if n < s.len() {
        lemma_digits_value_grows(s, n + 1);
        assert(s.take(n + 1).drop_last() =~= s.take(n));
        assert(is_decimal_digit(s[n]));
    } else {
        assert(s.take(n) =~= s);
    }
}

/// Reads an unsigned integer of at most `max`: see [`unsigned_value`].
fn parse_unsigned(s: &str, max: u64) -> (r: Option<u64>)
    requires
        max >= 9,
    ensures
        match unsigned_value(s@) {
            Some(v) => if v <= max { r == Some(v as u64) } else { r is None },
            None => r is None,
        },
{
    let n = s.unicode_len();
    let mut start: usize = 0;
    if n > 0 && s.get_char(0) == '+' {
        start = 1;
    }
    let ghost body = unsigned_body(s@);
    proof { assert(body =~= s@.skip(start as int)); }
    if start >= n {
        return None;
    }
    let mut value: u64 = 0;
    let mut i: usize = start;
    while i < n
        invariant
            n == s@.len(),
            start <= i <= n,
            body == s@.skip(start as int),
            body == unsigned_body(s@),
            forall|j: int| 0 <= j < i - start ==> is_decimal_digit(#[trigger] body[j]),
            value == digits_value(body.take(i - start)),
            value <= max,
            max >= 9,
        decreases n - i,
    {
        let c = s.get_char(i);
        proof { assert(body[i - start] == c); }
        if !('0' <= c && c <= '9') {
            proof {
                let k = i - start;
                assert(!is_decimal_digit(body[k]));
                assert(0 <= k < body.len());
                assert(!all_decimal_digits(body));
            }
            return None;
        }
        let d: u64 = (c as u64) - ('0' as u64);
        proof {
            assert(body.take(i - start + 1).drop_last() =~= body.take(i - start));
            assert(body.take(i - start + 1).last() == c);
        }
        if value > (max - d) / 10 {
            proof {
                assert(value * 10 + d > max) by (nonlinear_arith)
                    requires value > (max - d) / 10, d <= 9, d <= max;
                assert forall|j: int| 0 <= j < i - start + 1 implies is_decimal_digit(#[trigger] body[j]) by {}
                if all_decimal_digits(body) {
                    lemma_digits_value_grows(body, i - start + 1);
                }
            }
            return None;
        }
        proof {
            assert(value * 10 + d <= max) by (nonlinear_arith)
                requires value <= (max - d) / 10, d <= max;
        }
        value = value * 10 + d;
        i = i + 1;
    }
    proof {
        assert(body.take(n - start) =~= body);
    }
    Some(value)
}

/// Reads a `u64` the way `str::parse` does.
pub fn parse_u64(s: &str) -> (r: Option<u64>)
    ensures
        match unsigned_value(s@) {
            Some(v) => if v <= u64::MAX { r == Some(v as u64) } else { r is None },
            None => r is None,
        },
{
    parse_unsigned(s, u64::MAX)
}

/// Reads a `u32` the way `str::parse` does.
pub fn parse_u32(s: &str) -> (r: Option<u32>)
    ensures
        match unsigned_value(s@) {
            Some(v) => if v <= u32::MAX { r == Some(v as u32) } else { r is None },
            None => r is None,
        },
{
    match parse_unsigned(s, u32::MAX as u64) {
        Some(v) => Some(v as u32),
        None => None,
    }
}

/// The truth value that a text writes, the way `str::parse` reads one:
/// exactly `true` or `false`.
pub open spec fn bool_value(s: Seq<char>) -> Option<bool> {
    if s == "true"@ {
        Some(true)
    } else if s == "false"@ {
        Some(false)
    } else {
        None
    }
}

/// Reads a `bool` the way `str::parse` does.
pub fn parse_bool(s: &str) -> (r: Option<bool>)
    ensures
        r == bool_value(s@),
{
    proof { reveal_strlit("true"); reveal_strlit("false"); }
    if text_eq(s, "true") {
        Some(true)
    } else if text_eq(s, "false") {
        Some(false)
    } else {
        None
    }
}

/// The text of an optional text slice.
pub open spec fn opt_text(o: Option<&str>) -> Option<Seq<char>> {
    match o {
        Some(s) => Some(s@),
        None => None,
    }
}

/// The text of an optional string.
pub open spec fn opt_string(o: Option<String>) -> Option<Seq<char>> {
    match o {
        Some(s) => Some(s@),
        None => None,
    }
}

/// The value that an optional variable gives a field: its reading when it
/// is there and reads, else `default`.
pub open spec fn read_or<T>(o: Option<Seq<char>>, read: spec_fn(Seq<char>) -> Option<T>, default: T) -> T {
    match o {
        Some(s) => match read(s) {
            Some(v) => v,
            None => default,
        },
        None => default,
    }
}

/// The seconds that a timeout variable gives, in nanoseconds.
pub open spec fn timeout_reading(s: Seq<char>) -> Option<u128> {
    match unsigned_value(s) {
        Some(v) => if v <= u64::MAX { Some((v * NANOS_PER_SECOND) as u128) } else { None },
        None => None,
    }
}

/// The count that a retry variable gives.
pub open spec fn retry_reading(s: Seq<char>) -> Option<u32> {
    match unsigned_value(s) {
        Some(v) => if v <= u32::MAX { Some(v as u32) } else { None },
        None => None,
    }
}

/// The configuration that an environment source gives: the defaults,
/// changed by the variables that are set and read well, with the source's
/// priority and the tags `source` = `environment` and `prefix` = the prefix.
pub open spec fn environment_config(
    prefix: Seq<char>,
    priority: u8,
    timeout_seconds: Option<Seq<char>>,
    retry_attempts: Option<Seq<char>>,
    base_url: Option<Seq<char>>,
    enable_jitter: Option<Seq<char>>,
) -> DynamicConfigView {
    let d = default_dynamic_config();
    DynamicConfigView {
        timeout: read_or(timeout_seconds, |s: Seq<char>| timeout_reading(s), d.timeout),
        retry_attempts: read_or(retry_attempts, |s: Seq<char>| retry_reading(s), d.retry_attempts),
        base_url: match base_url { Some(u) => u, None => d.base_url },
        enable_jitter: read_or(enable_jitter, |s: Seq<char>| bool_value(s), d.enable_jitter),
        source_priority: Some(priority),
        tags: map!["source"@ => "environment"@, "prefix"@ => prefix],
        ..d
    }
}

/// What is wrong with the configuration of an environment source: its
/// fields, then the length of the prefix tag.
pub open spec fn environment_config_problem(v: DynamicConfigView, prefix: Seq<char>) -> Option<Seq<char>> {
    if fields_problem(v) is Some {
        fields_problem(v)
    } else if byte_len(prefix) > MAX_TAG_VALUE_BYTES {
        Some("Configuration tag value for key 'prefix' exceeds maximum length of 1024"@)
    } else {
        None
    }
}

/// The tags of an environment configuration hold a problem only when the
/// prefix is too long.
proof fn lemma_environment_tags(t: Seq<(String, String)>, prefix: Seq<char>)
    requires
        t.len() == 2,
        t[0].0@ == "source"@,
        t[0].1@ == "environment"@,
        t[1].0@ == "prefix"@,
        t[1].1@ == prefix,
    ensures
        crate::dynamic_config::tag_list_problem(t) == if byte_len(prefix) > MAX_TAG_VALUE_BYTES {
            Some("Configuration tag value for key 'prefix' exceeds maximum length of 1024"@)
        } else {
            None::<Seq<char>>
        },
{
    reveal_strlit("source");
    reveal_strlit("environment");
    reveal_strlit("prefix");
    reveal_strlit("Configuration tag value for key '");
    reveal_strlit("' exceeds maximum length of 1024");
    reveal_strlit("Configuration tag value for key 'prefix' exceeds maximum length of 1024");
    vstd::utf8::is_ascii_chars_encode_utf8("source"@);
    vstd::utf8::is_ascii_chars_encode_utf8("environment"@);
    vstd::utf8::is_ascii_chars_encode_utf8("prefix"@);
    assert(t.drop_last().drop_last() =~= Seq::<(String, String)>::empty());
    assert(t.drop_last().last() == t[0]);
    assert(t.last() == t[1]);
    assert("Configuration tag value for key '"@ + "prefix"@ + "' exceeds maximum length of 1024"@
        =~= "Configuration tag value for key 'prefix' exceeds maximum length of 1024"@);
    reveal_with_fuel(crate::dynamic_config::tags_problem, 3);
}

impl EnvironmentConfigSource {
    /// The name of the variable for `field`: the prefix, `_`, the field.
    pub fn variable_name(&self, field: &str) -> (r: String)
        ensures
            r@ == self.prefix@ + "_"@ + field@,
    {
        proof { reveal_strlit("_"); }
        concat3(self.prefix.as_str(), "_", field)
    }

    /// The configuration that the values of the variables `<prefix>_TIMEOUT_SECONDS`,
    /// `<prefix>_RETRY_ATTEMPTS`, `<prefix>_BASE_URL` and `<prefix>_ENABLE_JITTER`
    /// give (none where a variable is not set): see [`environment_config`];
    /// refused when it does not validate.
    pub fn load_config_from_values(
        &self,
        timeout_seconds: Option<&str>,
        retry_attempts: Option<&str>,
        base_url: Option<String>,
        enable_jitter: Option<&str>,
    ) -> (r: Result<DynamicConfig, Error>)
        ensures
            ({
                let v = environment_config(self.prefix@, self.priority, opt_text(timeout_seconds),
                    opt_text(retry_attempts), opt_string(base_url), opt_text(enable_jitter));
                &&& environment_config_problem(v, self.prefix@) is None <==> r is Ok
                &&& r matches Ok(c) ==> c@ == v && c.wf()
                &&& environment_config_problem(v, self.prefix@) matches Some(msg) ==> crate::error::is_config_error(r, msg)
            }),
    {
        let ghost tv = opt_text(timeout_seconds);
        let ghost rv = opt_text(retry_attempts);
        let ghost uv = opt_string(base_url);
        let ghost jv = opt_text(enable_jitter);
        let mut builder = DynamicConfigBuilder::new();
        if let Some(t) = timeout_seconds {
            if let Some(seconds) = parse_u64(t) {
                builder = builder.timeout(seconds as u128 * NANOS_PER_SECOND);
            }
        }
        if let Some(t) = retry_attempts {
            if let Some(attempts) = parse_u32(t) {
                builder = builder.retry_attempts(attempts);
            }
        }
        if let Some(u) = base_url {
            builder = builder.base_url(u);
        }
        if let Some(t) = enable_jitter {
            if let Some(enable) = parse_bool(t) {
                builder = builder.enable_jitter(enable);
            }
        }
        proof { reveal_strlit("source"); reveal_strlit("environment"); reveal_strlit("prefix"); }
        let builder = builder.source_priority(self.priority);
        assert(builder.config.tags@.len() == 0);
        assert(builder.config@.tags == Map::<Seq<char>, Seq<char>>::empty());
        let builder = builder.tag(owned("source"), owned("environment"));
        assert(builder.config.tags@.len() == 1);
        assert(builder.config@.tags.dom() == set!["source"@]);
        assert("prefix"@[0] != "source"@[0]);
        assert(!builder.config@.tags.contains_key("prefix"@));
        let builder = builder.tag(owned("prefix"), self.prefix.clone());
        assert(builder.config.tags@.len() == 2);
        proof {
            let v = environment_config(self.prefix@, self.priority, tv, rv, uv, jv);
            assert(builder.config@.tags =~= v.tags);
            assert(builder.config@ == v);
            reveal_strlit("Configuration tag value for key '");
            reveal_strlit("' exceeds maximum length of 1024");
            reveal_strlit("Configuration tag value for key 'prefix' exceeds maximum length of 1024");
            assert("Configuration tag value for key '"@ + "prefix"@ + "' exceeds maximum length of 1024"@
                =~= "Configuration tag value for key 'prefix' exceeds maximum length of 1024"@);
            lemma_environment_tags(builder.config.tags@, self.prefix@);
        }
        builder.build()
    }
}

/// A configuration source fetched from a remote endpoint. The poll interval
/// is in nanoseconds. The HTTP client that fetches it (with a 30 s request
/// timeout) belongs to the caller.
#[derive(Debug)]
pub struct RemoteConfigSource {
    /// URL of the endpoint.
    pub endpoint_url: String,
    /// Priority of the source (higher wins).
    pub priority: u8,
    /// Identifier of the source.
    pub source_id: String,
    /// Interval between fetches.
    pub poll_interval: u128,
    /// Headers sent with each fetch, each name at most once.
    pub auth_headers: Vec<(String, String)>,
}

impl RemoteConfigSource {
    /// Well-formedness: no header name occurs twice.
    pub open spec fn wf(&self) -> bool {
        unique_keys(self.auth_headers@)
    }

    /// A source for `endpoint_url`, identified as `remote:<url>`, fetched
    /// every minute, with no headers.
    pub fn new(endpoint_url: String, priority: u8) -> (r: Self)
        ensures
            r.wf(),
            r.endpoint_url@ == endpoint_url@,
            r.priority == priority,
            r.source_id@ == "remote:"@ + endpoint_url@,
            r.poll_interval == 60 * NANOS_PER_SECOND,
            r.auth_headers@.len() == 0,
    {
        proof { reveal_strlit("remote:"); }
        let source_id = concat2("remote:", endpoint_url.as_str());
        RemoteConfigSource {
            endpoint_url,
            priority,
            source_id,
            poll_interval: 60 * NANOS_PER_SECOND,
            auth_headers: Vec::new(),
        }
    }

    /// A source with the given poll interval.
    pub fn with_poll_interval(endpoint_url: String, priority: u8, poll_interval: u128) -> (r: Self)
        ensures
            r.wf(),
            r.endpoint_url@ == endpoint_url@,
            r.priority == priority,
            r.source_id@ == "remote:"@ + endpoint_url@,
            r.poll_interval == poll_interval,
            r.auth_headers@.len() == 0,
    {
        let mut s = Self::new(endpoint_url, priority);
        s.poll_interval = poll_interval;
        s
    }

    /// Adds a header; a header with the same name is replaced.
    pub fn with_auth_header(self, key: String, value: String) -> (r: Self)
        requires
            self.wf(),
        ensures
            r.wf(),
            pairs_map(r.auth_headers@) == pairs_map(self.auth_headers@).insert(key@, value@),
            r.endpoint_url == self.endpoint_url,
            r.priority == self.priority,
            r.source_id == self.source_id,
            r.poll_interval == self.poll_interval,
    {
        let mut s = self;
        insert_pair(&mut s.auth_headers, key, value);
        s
    }

    /// Adds headers; a header with a name already present is replaced.
    pub fn with_auth_headers(self, headers: Vec<(String, String)>) -> (r: Self)
        requires
            self.wf(),
            unique_keys(headers@),
        ensures
            r.wf(),
            pairs_map(r.auth_headers@) == pairs_map(self.auth_headers@).union_prefer_right(pairs_map(headers@)),
            r.endpoint_url == self.endpoint_url,
            r.priority == self.priority,
            r.source_id == self.source_id,
            r.poll_interval == self.poll_interval,
    {
        let mut s = self;
        crate::dynamic_config::extend_pairs(&mut s.auth_headers, &headers);
        s
    }

    /// Sets the poll interval.
    pub fn set_poll_interval(&mut self, interval: u128)
        ensures
            final(self).poll_interval == interval,
            final(self).endpoint_url == old(self).endpoint_url,
            final(self).priority == old(self).priority,
            final(self).source_id == old(self).source_id,
            final(self).auth_headers == old(self).auth_headers,
    {
        self.poll_interval = interval;
    }

    /// The source identifier.
    pub fn source_id(&self) -> (r: &str)
        ensures
            r@ == self.source_id@,
    {
        self.source_id.as_str()
    }

    /// The source priority.
    pub fn priority(&self) -> (r: u8)
        ensures
            r == self.priority,
    {
        self.priority
    }

    /// A remote source can be watched (by polling).
    pub fn supports_watching(&self) -> (r: bool)
        ensures
            r,
    {
        true
    }

    /// Marks a fetched configuration as coming from this source: its
    /// priority, and the tags `source` = `remote` and `endpoint` = the URL.
    pub fn annotate_fetched(&self, config: DynamicConfig) -> (r: DynamicConfig)
        requires
            config.wf(),
        ensures
            r.wf(),
            r@ == (DynamicConfigView {
                source_priority: Some(self.priority),
                tags: config@.tags.insert("source"@, "remote"@).insert("endpoint"@, self.endpoint_url@),
                ..config@
            }),
    {
        proof { reveal_strlit("source"); reveal_strlit("remote"); reveal_strlit("endpoint"); }
        let mut c = config;
        c.source_priority = Some(self.priority);
        insert_pair(&mut c.tags, owned("source"), owned("remote"));
        insert_pair(&mut c.tags, owned("endpoint"), self.endpoint_url.clone());
        c
    }

    /// The event that reports a failed fetch, with the error text.
    pub fn fetch_error_event(&self, error_text: &str) -> (r: ConfigSourceEvent)
        ensures
            r.source_id@ == self.source_id@,
            r.event_type == ConfigSourceEventType::LoadError,
            r.config is None,
            r.error matches Some(m) && m@ == "Failed to fetch remote config : "@ + error_text@,
    {
        proof { reveal_strlit("Failed to fetch remote config : "); }
        ConfigSourceEvent {
            source_id: self.source_id.clone(),
            event_type: ConfigSourceEventType::LoadError,
            config: None,
            error: Some(concat2("Failed to fetch remote config : ", error_text)),
        }
    }
}

/// What polling a remote source remembers: the hash of the last
/// configuration it reported.
#[derive(Debug, Clone, Copy)]
pub struct RemotePollState {
    /// Hash of the last reported configuration.
    pub last_config_hash: Option<u64>,
}

impl RemotePollState {
    /// Nothing reported yet.
    pub fn new() -> (r: Self)
        ensures
            r.last_config_hash is None,
    {
        RemotePollState { last_config_hash: None }
    }

    /// After a fetch of a configuration with hash `current_hash`: whether it
    /// is reported as changed, which it is when nothing was reported before
    /// or the hash differs; the hash is then remembered.
    pub fn on_fetched(&mut self, current_hash: u64) -> (r: bool)
        ensures
            r == match old(self).last_config_hash {
                Some(h) => h != current_hash,
                None => true,
            },
            r ==> final(self).last_config_hash == Some(current_hash),
            !r ==> *final(self) == *old(self),
    {
        let changed = match self.last_config_hash {
            Some(h) => h != current_hash,
            None => true,
        };
        if changed {
            self.last_config_hash = Some(current_hash);
        }
        changed
    }
}

} // verus!
