//! How a client connects to a backend over HTTP.

use http::header::{HeaderMap, HeaderValue};
use vstd::prelude::*;

use crate::headers::{
    every_header_is_sent, header_entries, holds, is_header_name, is_header_value, lowered,
    only_bad_headers_are_refused, parse_headers, HeaderError,
};
use crate::table::{
    distinct_keys, entries_or_none, map_of, map_of_has_the_entries, map_of_has_the_keys, replaced,
    Table,
};
use crate::text::{
    case_is_ignored_letter_by_letter, concat2, eq_ignore_ascii_case, same_ignoring_ascii_case,
    starts_with,
};
use crate::time::Duration;

verus! {

/// The entries of a table of headers.
pub type Entries = Seq<(Seq<char>, Seq<char>)>;

/// A token with the mark of its scheme in front.
pub open spec fn bearer(token: Seq<char>) -> Seq<char> {
    if "Bearer "@.is_prefix_of(token) {
        token
    } else {
        "Bearer "@ + token
    }
}

/// `key` names the header for authorization, in whatever case.
pub open spec fn is_authorization(key: Seq<char>) -> bool {
    same_ignoring_ascii_case(key, "Authorization"@)
}

/// The value that is sent for a header: one for authorization is marked as a
/// bearer token, every other is sent as it is.
pub open spec fn normalized_value(key: Seq<char>, value: Seq<char>) -> Seq<char> {
    if is_authorization(key) {
        bearer(value)
    } else {
        value
    }
}

/// The headers with the values that are sent for them.
pub open spec fn normalized(entries: Entries) -> Entries {
    entries.map_values(|e: (Seq<char>, Seq<char>)| (e.0, normalized_value(e.0, e.1)))
}

/// The headers of a client: those that were asked for, with the values that are
/// sent for them, and over them the value that was given for authorization.
pub open spec fn client_headers(entries: Entries, auth: Option<Seq<char>>) -> Map<
    Seq<char>,
    Seq<char>,
> {
    match auth {
        Some(value) => map_of(normalized(entries)).insert("Authorization"@, value),
        None => map_of(normalized(entries)),
    }
}

/// A token as it is sent, where there is one.
pub open spec fn opt_bearer(token: Option<String>) -> Option<Seq<char>> {
    match token {
        Some(t) => Some(bearer(t@)),
        None => None,
    }
}

/// How a client connects to a backend.
#[derive(Clone, Debug)]
pub struct McpClientConfig {
    pub url: String,
    pub headers: Table<String>,
    pub connect_timeout: Option<Duration>,
    pub read_timeout: Option<Duration>,
}

impl McpClientConfig {
    /// A connection to `url`, without headers or limits of time.
    pub fn new(url: &str) -> (r: Self)
        ensures
            r.url@ == url@,
            r.headers.entries() == Seq::<(Seq<char>, Seq<char>)>::empty(),
            r.headers@ == Map::<Seq<char>, Seq<char>>::empty(),
            r.connect_timeout is None,
            r.read_timeout is None,
    {
        McpClientConfig {
            url: url.to_owned(),
            headers: Table::new(),
            connect_timeout: None,
            read_timeout: None,
        }
    }

    /// The connection with a header set.
    pub fn with_header(self, key: &str, value: &str) -> (r: Self)
        ensures
            r.headers@ == self.headers@.insert(key@, value@),
            r.headers.entries() == (if self.headers@.contains_key(key@) {
                replaced(self.headers.entries(), key@, value@)
            } else {
                self.headers.entries().push((key@, value@))
            }),
            r.url == self.url,
            r.connect_timeout == self.connect_timeout,
            r.read_timeout == self.read_timeout,
    {
        McpClientConfig {
            headers: self.headers.with(key.to_owned(), value.to_owned()),
            url: self.url,
            connect_timeout: self.connect_timeout,
            read_timeout: self.read_timeout,
        }
    }
}

/// A token with the mark of its scheme in front.
pub fn bearer_token(token: &str) -> (r: String)
    ensures
        r@ == bearer(token@),
{
    if starts_with(token, "Bearer ") {
        token.to_owned()
    } else {
        concat2("Bearer ", token)
    }
}

fn value_to_send(key: &str, value: &str) -> (r: String)
    ensures
        r@ == normalized_value(key@, value@),
{
    if eq_ignore_ascii_case(key, "Authorization") {
        bearer_token(value)
    } else {
        value.to_owned()
    }
}

fn normalized_table(headers: &Table<String>) -> (r: Table<String>)
    ensures
        r.entries() == normalized(headers.entries()),
{
    let ghost entries = headers.entries();
    let n: usize = headers.len();
    let mut r: Table<String> = Table::new();
    let mut i: usize = 0;
    assert(normalized(entries.take(0)) =~= Seq::empty());
    while i < n
        invariant
            i <= n,
            n == entries.len(),
            entries == headers.entries(),
            distinct_keys(entries),
            r.entries() == normalized(entries.take(i as int)),
        decreases n - i,
    {
        let key: &String = headers.key(i);
        let value: String = value_to_send(key.as_str(), headers.value(i).as_str());
        proof {
            lemma_new_key(entries, i as int);
            assert(normalized(entries.take(i + 1)) =~= normalized(entries.take(i as int)).push(
                (key@, value@),
            ));
        }
        r = r.with(key.clone(), value);
        i += 1;
    }
    assert(entries.take(n as int) =~= entries);
    r
}

proof fn lemma_new_key(entries: Entries, i: int)
    requires
        distinct_keys(entries),
        0 <= i < entries.len(),
    ensures
        !map_of(normalized(entries.take(i))).contains_key(entries[i].0),
{
    let before = normalized(entries.take(i));
    map_of_has_the_keys(before, entries[i].0);
    if map_of(before).contains_key(entries[i].0) {
        let j = choose|j: int| 0 <= j < before.len() && (#[trigger] before[j]).0 == entries[i].0;
        assert(entries[j].0 == entries[i].0);
    }
}

/// The headers with the values that are sent for them: a value for
/// authorization is marked as a bearer token.
pub fn normalize_headers(headers: &Option<Table<String>>) -> (r: Option<Table<String>>)
    ensures
        r is Some == headers is Some,
        r is Some ==> r->0.entries() == normalized(headers->0.entries()),
{
    match headers {
        Some(table) => Some(normalized_table(table)),
        None => None,
    }
}

/// The connection of a command-line client to `url`. A value for
/// authorization that was given on the command line is sent as it is.
pub fn build_mcp_config(
    url: &str,
    headers: &Table<String>,
    auth: Option<&String>,
) -> (r: McpClientConfig)
    ensures
        r.url@ == url@,
        r.headers@ == client_headers(
            headers.entries(),
            match auth {
                Some(value) => Some(value@),
                None => None,
            },
        ),
        auth is None ==> r.headers.entries() == normalized(headers.entries()),
        r.connect_timeout is None,
        r.read_timeout is None,
{
    let ghost entries = headers.entries();
    let n: usize = headers.len();
    let mut config: McpClientConfig = McpClientConfig::new(url);
    let mut i: usize = 0;
    assert(normalized(entries.take(0)) =~= Seq::empty());
    while i < n
        invariant
            i <= n,
            n == entries.len(),
            entries == headers.entries(),
            distinct_keys(entries),
            config.url@ == url@,
            config.headers.entries() == normalized(entries.take(i as int)),
            config.connect_timeout is None,
            config.read_timeout is None,
        decreases n - i,
    {
        let key: &String = headers.key(i);
        let value: String = value_to_send(key.as_str(), headers.value(i).as_str());
        proof {
            lemma_new_key(entries, i as int);
            assert(normalized(entries.take(i + 1)) =~= normalized(entries.take(i as int)).push(
                (key@, value@),
            ));
        }
        config = config.with_header(key.as_str(), value.as_str());
        i += 1;
    }
    assert(entries.take(n as int) =~= entries);
    match auth {
        Some(value) => config.with_header("Authorization", value.as_str()),
        None => config,
    }
}

/// The headers that are sent to a backend, and its token over them.
fn headers_with_token(
    headers: &Option<Table<String>>,
    auth_token: &Option<String>,
) -> (r: Table<String>)
    ensures
        r@ == client_headers(entries_or_none(*headers), opt_bearer(*auth_token)),
        auth_token is None ==> r.entries() == normalized(entries_or_none(*headers)),
        auth_token is Some ==> r@.contains_key("Authorization"@),
{
    let table: Table<String> = match headers {
        Some(t) => normalized_table(t),
        None => {
            assert(normalized(Seq::empty()) =~= Seq::empty());
            Table::new()
        },
    };
    match auth_token {
        Some(token) => table.with("Authorization".to_owned(), bearer_token(token.as_str())),
        None => table,
    }
}

/// The headers that are sent to a backend, and its token over them. Where
/// neither is given, there are none.
pub fn merged_headers(
    headers: &Option<Table<String>>,
    auth_token: &Option<String>,
) -> (r: Option<Table<String>>)
    ensures
        r is Some == (headers is Some || auth_token is Some),
        r is Some ==> r->0@ == client_headers(entries_or_none(*headers), opt_bearer(*auth_token)),
        r is Some && auth_token is None ==> r->0.entries() == normalized(headers->0.entries()),
{
    if headers.is_some() || auth_token.is_some() {
        Some(headers_with_token(headers, auth_token))
    } else {
        None
    }
}

/// The headers with which a backend is asked for its protocol: those that are
/// sent to it, and its token over them. Where there are none, none are given.
pub fn detection_headers(
    headers: &Option<Table<String>>,
    auth_token: &Option<String>,
) -> (r: Option<Table<String>>)
    ensures
        r is Some == (entries_or_none(*headers).len() > 0 || auth_token is Some),
        r is Some ==> r->0@ == client_headers(entries_or_none(*headers), opt_bearer(*auth_token)),
{
    let table: Table<String> = headers_with_token(headers, auth_token);
    if table.is_empty() {
        None
    } else {
        Some(table)
    }
}

/// The connection to a backend for streamable HTTP: the headers that are sent
/// to it, and its token over them.
pub fn stream_client_config(
    url: &str,
    headers: &Option<Table<String>>,
    auth_token: &Option<String>,
) -> (r: McpClientConfig)
    ensures
        r.url@ == url@,
        r.headers@ == client_headers(entries_or_none(*headers), opt_bearer(*auth_token)),
        r.connect_timeout is None,
        r.read_timeout is None,
{
    let mut config: McpClientConfig = McpClientConfig::new(url);
    config.headers = headers_with_token(headers, auth_token);
    config
}

/// What an HTTP client is built from.
#[derive(Debug)]
pub struct HttpClientPlan {
    /// The headers that go with every request.
    pub headers: HeaderMap<HeaderValue>,
    pub connect_timeout: Option<Duration>,
    pub timeout: Option<Duration>,
}

/// What the HTTP client of a connection is built from, or what is wrong with its
/// headers.
pub fn http_client_plan(config: &McpClientConfig) -> (r: Result<HttpClientPlan, HeaderError>)
    ensures
        match r {
            Ok(plan) => {
                &&& holds(plan.headers, config.headers.entries())
                &&& plan.connect_timeout == config.connect_timeout
                &&& plan.timeout == config.read_timeout
            },
            Err(e) => e.explains(config.headers.entries()),
        },
{
    match parse_headers(&config.headers) {
        Ok(headers) => Ok(
            HttpClientPlan {
                headers,
                connect_timeout: config.connect_timeout,
                timeout: config.read_timeout,
            },
        ),
        Err(e) => Err(e),
    }
}

/// A client on the command line and the server treat the headers of a backend
/// alike.
pub proof fn client_and_server_normalize_alike(entries: Entries)
    ensures
        client_headers(entries, None) == map_of(normalized(entries)),
{
}

/// To normalize headers twice is to normalize them once.
pub proof fn normalizing_is_idempotent(entries: Entries)
    ensures
        normalized(normalized(entries)) == normalized(entries),
{
    assert forall|i: int| 0 <= i < entries.len() implies normalized(normalized(entries))[i]
        == normalized(entries)[i] by {
        bearer_is_idempotent(entries[i].1);
    }
    assert(normalized(normalized(entries)) =~= normalized(entries));
}

/// A marked token is not marked again.
pub proof fn bearer_is_idempotent(token: Seq<char>)
    ensures
        "Bearer "@.is_prefix_of(bearer(token)),
        bearer(bearer(token)) == bearer(token),
{
    assert(("Bearer "@ + token).subrange(0, "Bearer "@.len() as int) =~= "Bearer "@);
}

/// Normalizing keeps the names and their order, marks every value for
/// authorization as a bearer token, and keeps all other values.
pub proof fn normalizing_marks_authorization_only(entries: Entries, i: int)
    requires
        0 <= i < entries.len(),
    ensures
        normalized(entries).len() == entries.len(),
        normalized(entries)[i].0 == entries[i].0,
        is_authorization(entries[i].0) ==> "Bearer "@.is_prefix_of(normalized(entries)[i].1),
        !is_authorization(entries[i].0) ==> normalized(entries)[i].1 == entries[i].1,
{
    bearer_is_idempotent(entries[i].1);
}

/// A backend's token takes the place of the value that its headers give for
/// `Authorization`; the other headers stay.
pub proof fn token_takes_the_place_of_authorization(entries: Entries, token: Seq<char>, i: int)
    requires
        distinct_keys(entries),
        0 <= i < entries.len(),
    ensures
        client_headers(entries, Some(token))["Authorization"@] == token,
        entries[i].0 != "Authorization"@ ==> client_headers(entries, Some(token))[entries[i].0]
            == normalized_value(entries[i].0, entries[i].1),
{
    let sent_entries = normalized(entries);
    assert(distinct_keys(sent_entries)) by {
        assert forall|a: int, b: int|
            0 <= a < b < sent_entries.len() implies (#[trigger] sent_entries[a]).0
            != (#[trigger] sent_entries[b]).0 by {
            assert(entries[a].0 != entries[b].0);
        }
    }
    map_of_has_the_entries(sent_entries, i);
}

/// A token begins with the mark of its scheme.
pub open spec fn is_marked(token: Seq<char>) -> bool {
    &&& token.len() >= 7
    &&& token[0] == 'B' && token[1] == 'e' && token[2] == 'a' && token[3] == 'r'
    &&& token[4] == 'e' && token[5] == 'r' && token[6] == ' '
}

/// A token is sent whole, however long it is: one that is marked as it is, every
/// other one behind the mark.
pub proof fn token_is_sent_whole(token: Seq<char>)
    ensures
        is_marked(token) ==> bearer(token) == token,
        !is_marked(token) ==> bearer(token).len() == token.len() + 7 && is_marked(bearer(token))
            && bearer(token).skip(7) == token,
{
    reveal_strlit("Bearer ");
    assert(is_marked(token) <==> "Bearer "@.is_prefix_of(token)) by {
        if is_marked(token) {
            assert(token.subrange(0, 7) =~= "Bearer "@);
        } else if token.len() >= 7 {
            let p = token.subrange(0, 7);
            assert(p[0] == token[0] && p[1] == token[1] && p[2] == token[2] && p[3] == token[3]
                && p[4] == token[4] && p[5] == token[5] && p[6] == token[6]);
        }
    }
    if !is_marked(token) {
        assert(bearer(token).skip(7) =~= token);
    }
}

/// Different tokens are sent as different values, unless one is the other with
/// the mark in front.
pub proof fn different_tokens_are_sent_differently(a: Seq<char>, b: Seq<char>)
    requires
        is_marked(a) == is_marked(b),
        a != b,
    ensures
        bearer(a) != bearer(b),
{
    token_is_sent_whole(a);
    token_is_sent_whole(b);
}

/// The header for authorization is known by its thirteen letters, each of them
/// capital or small.
pub proof fn authorization_is_known_in_any_case(key: Seq<char>)
    ensures
        is_authorization(key) <==> key.len() == 13 && forall|i: int|
            0 <= i < 13 ==> #[trigger] key[i] == "authorization"@[i] || key[i]
                == "AUTHORIZATION"@[i],
{
    case_is_ignored_letter_by_letter(key, "Authorization"@);
    reveal_strlit("Authorization");
    reveal_strlit("authorization");
    reveal_strlit("AUTHORIZATION");
    let name = "Authorization"@;
    let small = "authorization"@;
    let capital = "AUTHORIZATION"@;
    assert forall|i: int| 0 <= i < 13 implies (name[i] == small[i] || name[i] == capital[i])
        && 'A' <= #[trigger] capital[i] <= 'Z' && small[i] as int == capital[i] as int + 32 by {}
    if is_authorization(key) {
        assert forall|i: int| 0 <= i < 13 implies #[trigger] key[i] == small[i] || key[i]
            == capital[i] by {
            assert('A' <= capital[i] <= 'Z');
        }
    }
    if key.len() == 13 && forall|i: int|
        0 <= i < 13 ==> #[trigger] key[i] == small[i] || key[i] == capital[i] {
        assert forall|i: int| 0 <= i < key.len() implies {
            ||| #[trigger] key[i] == name[i]
            ||| 'A' <= key[i] <= 'Z' && name[i] as int == key[i] as int + 32
            ||| 'A' <= name[i] <= 'Z' && key[i] as int == name[i] as int + 32
        } by {
            assert('A' <= capital[i] <= 'Z');
        }
    }
}

/// A header that is asked for is sent under its name with its whole value. The
/// value for authorization is sent like a token.
pub proof fn headers_are_sent_whole(entries: Entries, i: int)
    requires
        0 <= i < entries.len(),
    ensures
        normalized(entries).len() == entries.len(),
        normalized(entries)[i].0 == entries[i].0,
        !is_authorization(entries[i].0) || is_marked(entries[i].1) ==> normalized(entries)[i].1
            == entries[i].1,
        is_authorization(entries[i].0) && !is_marked(entries[i].1) ==> is_marked(
            normalized(entries)[i].1,
        ) && normalized(entries)[i].1.skip(7) == entries[i].1,
{
    token_is_sent_whole(entries[i].1);
}

/// A client sends every header that was asked for, and no other but the one for
/// authorization. What was given for authorization goes over what the headers
/// say, and is sent as it was given.
pub proof fn client_sends_what_was_asked_for(
    entries: Entries,
    auth: Option<Seq<char>>,
    key: Seq<char>,
    i: int,
)
    requires
        distinct_keys(entries),
    ensures
        client_headers(entries, auth).contains_key(key) <==> (auth is Some && key
            == "Authorization"@ || exists|j: int|
            0 <= j < entries.len() && (#[trigger] entries[j]).0 == key),
        auth is Some ==> client_headers(entries, auth)["Authorization"@] == auth->0,
        0 <= i < entries.len() && !(auth is Some && entries[i].0 == "Authorization"@) ==> {
            let sent_value = client_headers(entries, auth)[entries[i].0];
            if is_authorization(entries[i].0) && !is_marked(entries[i].1) {
                is_marked(sent_value) && sent_value.skip(7) == entries[i].1
            } else {
                sent_value == entries[i].1
            }
        },
{
    let sent_entries = normalized(entries);
    map_of_has_the_keys(sent_entries, key);
    if exists|j: int| 0 <= j < entries.len() && (#[trigger] entries[j]).0 == key {
        let j = choose|j: int| 0 <= j < entries.len() && (#[trigger] entries[j]).0 == key;
        assert(sent_entries[j].0 == key);
    }
    if exists|j: int| 0 <= j < sent_entries.len() && (#[trigger] sent_entries[j]).0 == key {
        let j = choose|j: int| 0 <= j < sent_entries.len() && (#[trigger] sent_entries[j]).0 == key;
        assert(entries[j].0 == key);
    }
    if 0 <= i < entries.len() {
        headers_are_sent_whole(entries, i);
        assert forall|a: int, b: int|
            0 <= a < b < sent_entries.len() implies (#[trigger] sent_entries[a]).0
            != (#[trigger] sent_entries[b]).0 by {
            assert(entries[a].0 != entries[b].0);
        }
        map_of_has_the_entries(sent_entries, i);
    }
}

/// A token that is there is sent, whole and marked; where there is none, none is
/// sent.
pub proof fn configured_token_is_sent_whole(token: Option<String>)
    ensures
        opt_bearer(token) is Some <==> token is Some,
        token is Some && is_marked(token->0@) ==> opt_bearer(token)->0 == token->0@,
        token is Some && !is_marked(token->0@) ==> is_marked(opt_bearer(token)->0) && opt_bearer(
            token,
        )->0.skip(7) == token->0@,
{
    if token is Some {
        token_is_sent_whole(token->0@);
    }
}

/// A value is sent for authorization: the token itself where it is marked, and
/// else the mark and the whole token.
pub open spec fn is_token_as_sent(value: Seq<char>, token: Seq<char>) -> bool {
    if is_marked(token) {
        value == token
    } else {
        is_marked(value) && value.skip(7) == token
    }
}

/// The value that is made of a token holds the whole token, and marks it once.
pub proof fn bearer_token_keeps_the_token(token: &str, r: String)
    requires
        call_ensures(bearer_token, (token,), r),
    ensures
        is_token_as_sent(r@, token@),
        r@.len() == token@.len() || r@.len() == token@.len() + 7,
{
    token_is_sent_whole(token@);
}

/// Where headers are given, each of them is sent, under its name and in its
/// place. Its value is the one that was given, and a token where the name is that
/// for authorization. Where none are given, none are sent.
pub proof fn normalizing_sends_every_header(
    headers: &Option<Table<String>>,
    r: Option<Table<String>>,
    i: int,
)
    requires
        call_ensures(normalize_headers, (headers,), r),
    ensures
        r is Some <==> *headers is Some,
        r is Some ==> r->0.entries().len() == headers->0.entries().len(),
        r is Some && 0 <= i < r->0.entries().len() ==> {
            let given = headers->0.entries()[i];
            let sent_entry = r->0.entries()[i];
            &&& sent_entry.0 == given.0
            &&& if is_authorization(given.0) {
                is_token_as_sent(sent_entry.1, given.1)
            } else {
                sent_entry.1 == given.1
            }
        },
{
    if r is Some && 0 <= i < r->0.entries().len() {
        headers_are_sent_whole(headers->0.entries(), i);
    }
}

/// The headers of a connection are those that were configured: each is there with
/// its value, that for authorization as a token. The token of the backend, where
/// it has one, is the value of `Authorization`. There is nothing else.
pub open spec fn are_as_configured(
    sent_headers: Map<Seq<char>, Seq<char>>,
    configured: Entries,
    token: Option<String>,
) -> bool {
    &&& token is Some ==> sent_headers.contains_key("Authorization"@) && is_token_as_sent(
        sent_headers["Authorization"@],
        token->0@,
    )
    &&& forall|i: int|
        0 <= i < configured.len() && !(token is Some && (#[trigger] configured[i]).0
            == "Authorization"@) ==> {
            &&& sent_headers.contains_key(configured[i].0)
            &&& if is_authorization(configured[i].0) {
                is_token_as_sent(sent_headers[configured[i].0], configured[i].1)
            } else {
                sent_headers[configured[i].0] == configured[i].1
            }
        }
    &&& forall|key: Seq<char>| #[trigger]
        sent_headers.contains_key(key) ==> (token is Some && key == "Authorization"@) || exists|
            j: int,
        |
            0 <= j < configured.len() && (#[trigger] configured[j]).0 == key
}

proof fn lemma_as_configured(configured: Entries, token: Option<String>)
    requires
        distinct_keys(configured),
    ensures
        are_as_configured(client_headers(configured, opt_bearer(token)), configured, token),
{
    let given = opt_bearer(token);
    let sent_headers = client_headers(configured, given);
    configured_token_is_sent_whole(token);
    assert forall|i: int|
        0 <= i < configured.len() && !(token is Some && (#[trigger] configured[i]).0
            == "Authorization"@) implies {
        &&& sent_headers.contains_key(configured[i].0)
        &&& if is_authorization(configured[i].0) {
            is_token_as_sent(sent_headers[configured[i].0], configured[i].1)
        } else {
            sent_headers[configured[i].0] == configured[i].1
        }
    } by {
        client_sends_what_was_asked_for(configured, given, configured[i].0, i);
    }
    assert forall|key: Seq<char>| #[trigger] sent_headers.contains_key(key) implies (token is Some
        && key == "Authorization"@) || exists|j: int|
        0 <= j < configured.len() && (#[trigger] configured[j]).0 == key by {
        client_sends_what_was_asked_for(configured, given, key, -1);
    }
}

/// Whatever a backend is connected for, it gets the headers that are configured
/// and its token: they are there where there is something to send.
pub proof fn backend_gets_its_headers_and_its_token(
    url: &str,
    headers: &Option<Table<String>>,
    auth_token: &Option<String>,
    merged: Option<Table<String>>,
    asked: Option<Table<String>>,
    config: McpClientConfig,
)
    requires
        call_ensures(merged_headers, (headers, auth_token), merged),
        call_ensures(detection_headers, (headers, auth_token), asked),
        call_ensures(stream_client_config, (url, headers, auth_token), config),
        *headers is Some ==> distinct_keys(headers->0.entries()),
    ensures
        config.url@ == url@,
        config.connect_timeout is None && config.read_timeout is None,
        merged is Some <==> *headers is Some || *auth_token is Some,
        asked is Some <==> *auth_token is Some || (*headers is Some && headers->0.entries().len()
            > 0),
        ({
            let configured = match *headers {
                Some(table) => table.entries(),
                None => Seq::empty(),
            };
            &&& are_as_configured(config.headers@, configured, *auth_token)
            &&& merged is Some ==> are_as_configured(merged->0@, configured, *auth_token)
            &&& asked is Some ==> are_as_configured(asked->0@, configured, *auth_token)
        }),
{
    lemma_as_configured(entries_or_none(*headers), *auth_token);
}

/// A client on the command line sends every header that was asked for, and what
/// was given for authorization as it was given.
pub proof fn command_line_client_sends_what_was_asked_for(
    url: &str,
    headers: &Table<String>,
    auth: Option<&String>,
    r: McpClientConfig,
    i: int,
)
    requires
        call_ensures(build_mcp_config, (url, headers, auth), r),
        distinct_keys(headers.entries()),
    ensures
        r.url@ == url@,
        r.connect_timeout is None && r.read_timeout is None,
        auth is Some ==> r.headers@.contains_key("Authorization"@)
            && r.headers@["Authorization"@] == auth->0@,
        0 <= i < headers.entries().len() && !(auth is Some && headers.entries()[i].0
            == "Authorization"@) ==> {
            let given = headers.entries()[i];
            &&& r.headers@.contains_key(given.0)
            &&& if is_authorization(given.0) {
                is_token_as_sent(r.headers@[given.0], given.1)
            } else {
                r.headers@[given.0] == given.1
            }
        },
{
    let given = match auth {
        Some(value) => Some(value@),
        None => None,
    };
    if 0 <= i < headers.entries().len() {
        client_sends_what_was_asked_for(headers.entries(), given, headers.entries()[i].0, i);
    }
}

/// Setting a header sets that one, and leaves the rest of a connection alone.
pub proof fn setting_a_header_changes_that_one(
    config: McpClientConfig,
    key: &str,
    value: &str,
    r: McpClientConfig,
    other: Seq<char>,
)
    requires
        call_ensures(McpClientConfig::with_header, (config, key, value), r),
    ensures
        r.headers@.contains_key(key@) && r.headers@[key@] == value@,
        other != key@ ==> r.headers@.contains_key(other) == config.headers@.contains_key(other),
        other != key@ && config.headers@.contains_key(other) ==> r.headers@[other]
            == config.headers@[other],
        r.url == config.url,
        r.connect_timeout == config.connect_timeout,
        r.read_timeout == config.read_timeout,
{
}

/// An HTTP client is built with all headers of its connection, and with its limits
/// of time. It cannot be built only where a header cannot be sent, or where there
/// are too many.
pub proof fn http_client_gets_every_header(
    config: &McpClientConfig,
    r: Result<HttpClientPlan, HeaderError>,
    i: int,
)
    requires
        call_ensures(http_client_plan, (config,), r),
    ensures
        ({
            let entries = config.headers.entries();
            let good = forall|j: int|
                0 <= j < entries.len() ==> is_header_name((#[trigger] entries[j]).0)
                    && is_header_value(entries[j].1);
            &&& good && entries.len() <= 6554 ==> r is Ok
            &&& r is Ok ==> good && r->Ok_0.connect_timeout == config.connect_timeout
                && r->Ok_0.timeout == config.read_timeout
            &&& r is Ok && 0 <= i < entries.len() && (forall|j: int|
                i < j < entries.len() ==> lowered((#[trigger] entries[j]).0) != lowered(
                    entries[i].0,
                )) ==> header_entries(r->Ok_0.headers)[lowered(entries[i].0)] == entries[i].1
        }),
{
    let entries = config.headers.entries();
    if r is Ok {
        every_header_is_sent(r->Ok_0.headers, entries, i, Seq::empty());
        assert forall|j: int| 0 <= j < entries.len() implies is_header_name(
            (#[trigger] entries[j]).0,
        ) && is_header_value(entries[j].1) by {
            only_bad_headers_are_refused(arbitrary(), r->Ok_0.headers, entries, j);
        }
    } else {
        only_bad_headers_are_refused(r->Err_0, arbitrary(), entries, i);
    }
}

} // verus!
