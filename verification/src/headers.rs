//! HTTP headers for requests to a backend.

use http::header::{HeaderMap, HeaderName, HeaderValue};
use vstd::prelude::*;

use crate::table::{last_entry_counts, map_of, map_of_has_the_keys, Table};
use crate::text::{ascii_lower, concat2, concat3, frames};

verus! {

/// How many headers a header map takes whatever their names are. Whether it
/// takes more depends on how their names are hashed.
pub const HEADER_LIMIT: usize = 6554;

/// `c` may stand in the name of a header.
pub open spec fn is_name_char(c: char) -> bool {
    ||| 'a' <= c <= 'z'
    ||| 'A' <= c <= 'Z'
    ||| '0' <= c <= '9'
    ||| c == '!' || c == '#' || c == '$' || c == '%' || c == '&' || c == '\''
    ||| c == '*' || c == '+' || c == '-' || c == '.' || c == '^' || c == '_'
    ||| c == '`' || c == '|' || c == '~'
}

/// `s` is the name of a header.
pub open spec fn is_header_name(s: Seq<char>) -> bool {
    &&& 0 < s.len() <= 65535
    &&& forall|i: int| 0 <= i < s.len() ==> is_name_char(#[trigger] s[i])
}

/// `c` may stand in the value of a header.
pub open spec fn is_value_char(c: char) -> bool {
    c == '\t' || (' ' <= c && c != '\u{7f}')
}

/// `s` is the value of a header.
pub open spec fn is_header_value(s: Seq<char>) -> bool {
    forall|i: int| 0 <= i < s.len() ==> is_value_char(#[trigger] s[i])
}

/// `s` in lower case, as far as it is ASCII.
pub open spec fn lowered(s: Seq<char>) -> Seq<char> {
    s.map_values(|c: char| ascii_lower(c))
}

/// A byte of a header's value that can be read as text.
pub open spec fn is_visible_byte(b: u8) -> bool {
    32 <= b < 127 || b == 9
}

/// `bytes` as characters, one by one.
pub open spec fn ascii_text(bytes: Seq<u8>) -> Seq<char> {
    bytes.map_values(|b: u8| b as char)
}

/// The name of a header, as [`HeaderName`]'s `FromStr` reads it: it takes
/// exactly the names that [`is_header_name`] describes, turns them into lower
/// case, and gives one reason for every other text.
#[verifier::external_body]
fn parse_header_name(s: &str) -> (r: Result<String, String>)
    ensures
        match r {
            Ok(name) => is_header_name(s@) && name@ == lowered(s@),
            Err(reason) => !is_header_name(s@) && reason@ == "invalid HTTP header name"@,
        },
{
    match s.parse::<HeaderName>() {
        Ok(name) => Ok(name.as_str().to_owned()),
        Err(e) => Err(e.to_string()),
    }
}

/// The value of a header, as [`HeaderValue::from_str`] reads it: it takes
/// exactly the values that [`is_header_value`] describes, keeps them as they
/// are, and gives one reason for every other text.
#[verifier::external_body]
pub(crate) fn parse_header_value(s: &str) -> (r: Result<String, String>)
    ensures
        match r {
            Ok(value) => is_header_value(s@) && value@ == s@,
            Err(reason) => !is_header_value(s@) && reason@ == "failed to parse header value"@,
        },
{
    match HeaderValue::from_str(s) {
        Ok(value) => Ok(String::from_utf8_lossy(value.as_bytes()).into_owned()),
        Err(e) => Err(e.to_string()),
    }
}

/// The text of a header's value, as [`HeaderValue::to_str`] gives it: there is
/// one exactly where every byte is visible ASCII or a tab, and it is those
/// bytes.
#[verifier::external_body]
pub(crate) fn header_text(bytes: &[u8]) -> (r: Option<String>)
    ensures
        match r {
            Some(text) => text@ == ascii_text(bytes@) && forall|i: int|
                0 <= i < bytes@.len() ==> is_visible_byte(#[trigger] bytes@[i]),
            None => exists|i: int| 0 <= i < bytes@.len() && !is_visible_byte(#[trigger] bytes@[i]),
        },
{
    let value = HeaderValue::from_bytes(bytes).ok()?;
    let text = value.to_str().ok()?;
    Some(text.to_owned())
}

/// The value of a header.
#[verifier::external_type_specification]
#[verifier::external_body]
pub struct ExHeaderValue(HeaderValue);

/// The headers of a request.
#[verifier::external_type_specification]
#[verifier::external_body]
#[verifier::reject_recursive_types(T)]
pub struct ExHeaderMap<T>(HeaderMap<T>);

/// The headers that a header map holds: the names in lower case, and their
/// values.
pub uninterp spec fn header_entries(m: HeaderMap<HeaderValue>) -> Map<Seq<char>, Seq<char>>;

/// [`HeaderMap::new`]: a map without headers.
#[verifier::external_body]
fn new_header_map() -> (r: HeaderMap<HeaderValue>)
    ensures
        header_entries(r).dom() == Set::<Seq<char>>::empty(),
{
    HeaderMap::new()
}

/// [`HeaderMap::try_insert`]: the value becomes the only one of the name, in
/// which case does not count. A map refuses a header, and stays as it is, when it
/// would have to grow beyond its largest size. It never has to while it holds
/// fewer headers than the limit; when it has to beyond that is not stated.
#[verifier::external_body]
fn insert_header(m: &mut HeaderMap<HeaderValue>, name: &str, value: &str) -> (r: bool)
    requires
        is_header_name(name@),
        is_header_value(value@),
    ensures
        r ==> header_entries(*final(m)) == header_entries(*old(m)).insert(lowered(name@), value@),
        !r ==> header_entries(*final(m)) == header_entries(*old(m)),
        header_entries(*old(m)).dom().finite() && header_entries(*old(m)).dom().len()
            < HEADER_LIMIT ==> r,
{
    let name = HeaderName::from_bytes(name.as_bytes()).unwrap();
    m.try_insert(name, HeaderValue::from_str(value).unwrap()).is_ok()
}

/// A header that cannot be sent.
#[derive(Clone, Debug)]
pub enum HeaderError {
    InvalidName { key: String, reason: String },
    InvalidValue { key: String, value: String, reason: String },
    /// There are more headers than can be sent at once.
    TooMany,
}

impl HeaderError {
    /// What is wrong with a header. The name is looked at first.
    pub open spec fn is_about(self, entry: (Seq<char>, Seq<char>)) -> bool {
        match self {
            HeaderError::InvalidName { key, reason } => {
                &&& !is_header_name(entry.0)
                &&& key@ == entry.0
                &&& reason@ == "invalid HTTP header name"@
            },
            HeaderError::InvalidValue { key, value, reason } => {
                &&& is_header_name(entry.0)
                &&& !is_header_value(entry.1)
                &&& key@ == entry.0
                &&& value@ == entry.1
                &&& reason@ == "failed to parse header value"@
            },
            HeaderError::TooMany => false,
        }
    }

    /// The error says what is wrong with a list of headers: it is about the
    /// first that cannot be sent, or those before it are more than can be sent
    /// at once.
    pub open spec fn explains(self, entries: Seq<(Seq<char>, Seq<char>)>) -> bool {
        if self is TooMany {
            &&& entries.len() > HEADER_LIMIT
            &&& forall|j: int|
                0 <= j <= HEADER_LIMIT ==> is_good(#[trigger] entries[j])
        } else {
            exists|i: int|
                #![trigger entries[i]]
                0 <= i < entries.len() && self.is_about(entries[i]) && forall|j: int|
                    0 <= j < i ==> is_good(#[trigger] entries[j])
        }
    }

    /// The message of a client for streamable HTTP.
    pub open spec fn stream_client_text(self) -> Seq<char> {
        match self {
            HeaderError::InvalidName { key, .. } => "Invalid header name: "@ + key@,
            HeaderError::InvalidValue { key, value, .. } => "Invalid header value for "@ + key@
                + ": "@ + value@,
            HeaderError::TooMany => "size overflows MAX_SIZE"@,
        }
    }

    /// The message of a client for server-sent events.
    pub open spec fn sse_client_text(self) -> Seq<char> {
        match self {
            HeaderError::InvalidName { key, reason } => "Invalid header name '"@ + key@ + "': "@
                + reason@,
            HeaderError::InvalidValue { key, reason, .. } => "Invalid header value for '"@ + key@
                + "': "@ + reason@,
            HeaderError::TooMany => "size overflows MAX_SIZE"@,
        }
    }

    /// The message of a client for streamable HTTP.
    pub fn stream_client_message(&self) -> (r: String)
        ensures
            r@ == self.stream_client_text(),
    {
        match self {
            HeaderError::InvalidName { key, .. } => concat2("Invalid header name: ", key.as_str()),
            HeaderError::InvalidValue { key, value, .. } => {
                let mut r: String = concat3("Invalid header value for ", key.as_str(), ": ");
                r.append(value.as_str());
                r
            },
            HeaderError::TooMany => "size overflows MAX_SIZE".to_owned(),
        }
    }

    /// The message of a client for server-sent events.
    pub fn sse_client_message(&self) -> (r: String)
        ensures
            r@ == self.sse_client_text(),
    {
        match self {
            HeaderError::InvalidName { key, reason } => {
                let mut r: String = concat3("Invalid header name '", key.as_str(), "': ");
                r.append(reason.as_str());
                r
            },
            HeaderError::InvalidValue { key, reason, .. } => {
                let mut r: String = concat3("Invalid header value for '", key.as_str(), "': ");
                r.append(reason.as_str());
                r
            },
            HeaderError::TooMany => "size overflows MAX_SIZE".to_owned(),
        }
    }
}

/// A header that can be sent.
pub open spec fn is_good(entry: (Seq<char>, Seq<char>)) -> bool {
    is_header_name(entry.0) && is_header_value(entry.1)
}

/// The headers of a list of entries, whose names are not told apart by case. Of
/// two entries with one name the later counts.
pub open spec fn sent(entries: Seq<(Seq<char>, Seq<char>)>) -> Map<Seq<char>, Seq<char>> {
    map_of(entries.map_values(|e: (Seq<char>, Seq<char>)| (lowered(e.0), e.1)))
}

/// A header map holds a list of headers, each of which can be sent.
pub open spec fn holds(m: HeaderMap<HeaderValue>, entries: Seq<(Seq<char>, Seq<char>)>) -> bool {
    &&& forall|i: int| 0 <= i < entries.len() ==> is_good(#[trigger] entries[i])
    &&& header_entries(m) == sent(entries)
}

/// The headers of a table, ready to be sent, or what is wrong with them: the
/// first that cannot be sent, or that there are too many.
pub fn parse_headers(headers: &Table<String>) -> (r: Result<HeaderMap<HeaderValue>, HeaderError>)
    ensures
        match r {
            Ok(m) => holds(m, headers.entries()),
            Err(e) => e.explains(headers.entries()),
        },
{
    let ghost entries = headers.entries();
    let ghost f = |e: (Seq<char>, Seq<char>)| (lowered(e.0), e.1);
    let mut m: HeaderMap<HeaderValue> = new_header_map();
    let n: usize = headers.len();
    let mut i: usize = 0;
    proof {
        assert(header_entries(m) =~= sent(entries.take(0)));
    }
    while i < n
        invariant
            i <= n,
            n == entries.len(),
            entries == headers.entries(),
            f == |e: (Seq<char>, Seq<char>)| (lowered(e.0), e.1),
            forall|j: int| 0 <= j < i ==> is_good(#[trigger] entries[j]),
            header_entries(m) == sent(entries.take(i as int)),
            header_entries(m).dom().finite(),
            header_entries(m).dom().len() <= i,
        decreases n - i,
    {
        let key: &String = headers.key(i);
        let value: &String = headers.value(i);
        match parse_header_name(key.as_str()) {
            Err(reason) => {
                let e = HeaderError::InvalidName { key: key.clone(), reason };
                assert(e.is_about(headers.entries()[i as int]));
                return Err(e);
            },
            Ok(name) => match parse_header_value(value.as_str()) {
                Err(reason) => {
                    let e = HeaderError::InvalidValue {
                        key: key.clone(),
                        value: value.clone(),
                        reason,
                    };
                    assert(e.is_about(headers.entries()[i as int]));
                    return Err(e);
                },
                Ok(value) => {
                    proof {
                        lemma_lowered(key@);
                        let so_far = entries.take(i as int).map_values(f);
                        let longer = entries.take(i + 1).map_values(f);
                        assert(longer.drop_last() =~= so_far);
                        assert(longer.last() == (lowered(entries[i as int].0), entries[i as int].1));
                    }
                    if !insert_header(&mut m, name.as_str(), value.as_str()) {
                        let e = HeaderError::TooMany;
                        assert(is_good(entries[i as int]));
                        assert(e.explains(entries));
                        return Err(e);
                    }
                },
            },
        }
        i += 1;
    }
    assert(entries.take(n as int) =~= entries);
    Ok(m)
}

/// Lower case stays as it is, and a name in lower case is a name.
proof fn lemma_lowered(s: Seq<char>)
    ensures
        lowered(lowered(s)) == lowered(s),
        is_header_name(s) ==> is_header_name(lowered(s)),
{
    assert(lowered(lowered(s)) =~= lowered(s));
    if is_header_name(s) {
        assert forall|i: int| 0 <= i < lowered(s).len() implies is_name_char(
            #[trigger] lowered(s)[i],
        ) by {
            assert(is_name_char(s[i]));
        }
    }
}

/// Lower case changes each capital letter of a name to the small one, and nothing
/// else.
pub proof fn only_capitals_are_lowered(s: Seq<char>)
    ensures
        lowered(s).len() == s.len(),
        forall|i: int|
            0 <= i < s.len() ==> {
                &&& 'A' <= s[i] <= 'Z' ==> #[trigger] lowered(s)[i] as int == s[i] as int + 32
                &&& !('A' <= s[i] <= 'Z') ==> lowered(s)[i] == s[i]
            },
{
}

/// A header map that holds a list of headers has the whole value of each under
/// its name in lower case, unless a later one has the same name, and has no other
/// headers.
pub proof fn every_header_is_sent(
    m: HeaderMap<HeaderValue>,
    entries: Seq<(Seq<char>, Seq<char>)>,
    i: int,
    name: Seq<char>,
)
    requires
        holds(m, entries),
    ensures
        header_entries(m).contains_key(name) <==> exists|j: int|
            0 <= j < entries.len() && lowered((#[trigger] entries[j]).0) == name,
        0 <= i < entries.len() && (forall|j: int|
            i < j < entries.len() ==> lowered((#[trigger] entries[j]).0) != lowered(entries[i].0))
            ==> header_entries(m)[lowered(entries[i].0)] == entries[i].1,
{
    let f = |e: (Seq<char>, Seq<char>)| (lowered(e.0), e.1);
    let names = entries.map_values(f);
    map_of_has_the_keys(names, name);
    if exists|j: int| 0 <= j < entries.len() && lowered((#[trigger] entries[j]).0) == name {
        let j = choose|j: int| 0 <= j < entries.len() && lowered((#[trigger] entries[j]).0) == name;
        assert(names[j].0 == name);
    }
    if exists|j: int| 0 <= j < names.len() && (#[trigger] names[j]).0 == name {
        let j = choose|j: int| 0 <= j < names.len() && (#[trigger] names[j]).0 == name;
        assert(lowered(entries[j].0) == name);
    }
    if 0 <= i < entries.len() && forall|j: int|
        i < j < entries.len() ==> lowered((#[trigger] entries[j]).0) != lowered(entries[i].0) {
        assert forall|j: int| i < j < names.len() implies (#[trigger] names[j]).0
            != names[i].0 by {
            assert(lowered(entries[j].0) != lowered(entries[i].0));
        }
        last_entry_counts(names, i);
    }
}

/// Headers that can be sent are never refused, as long as they are no more than a
/// map takes for certain; and headers of which one cannot be sent are never taken.
pub proof fn only_bad_headers_are_refused(
    e: HeaderError,
    m: HeaderMap<HeaderValue>,
    entries: Seq<(Seq<char>, Seq<char>)>,
    i: int,
)
    ensures
        entries.len() <= 6554 && (forall|j: int|
            0 <= j < entries.len() ==> is_header_name((#[trigger] entries[j]).0)
                && is_header_value(entries[j].1)) ==> !e.explains(entries),
        0 <= i < entries.len() && !(is_header_name(entries[i].0) && is_header_value(entries[i].1))
            ==> !holds(m, entries),
{
    if entries.len() <= 6554 && e.explains(entries) {
        let j = choose|j: int|
            #![trigger entries[j]]
            0 <= j < entries.len() && e.is_about(entries[j]) && forall|k: int|
                0 <= k < j ==> is_good(#[trigger] entries[k]);
        assert(!(is_header_name(entries[j].0) && is_header_value(entries[j].1)));
    }
    if 0 <= i < entries.len() && holds(m, entries) {
        assert(is_good(entries[i]));
    }
}

/// An error gives the name, and where that is right the value, of the first
/// header that cannot be sent.
pub proof fn error_gives_the_first_bad_header(
    e: HeaderError,
    entries: Seq<(Seq<char>, Seq<char>)>,
) -> (i: int)
    requires
        e.explains(entries),
        !(e is TooMany),
    ensures
        0 <= i < entries.len(),
        forall|j: int|
            0 <= j < i ==> is_header_name((#[trigger] entries[j]).0) && is_header_value(
                entries[j].1,
            ),
        match e {
            HeaderError::InvalidName { key, reason } => {
                &&& key@ == entries[i].0 && !is_header_name(key@)
                &&& reason@ == "invalid HTTP header name"@
            },
            HeaderError::InvalidValue { key, value, reason } => {
                &&& key@ == entries[i].0 && is_header_name(key@)
                &&& value@ == entries[i].1 && !is_header_value(value@)
                &&& reason@ == "failed to parse header value"@
            },
            HeaderError::TooMany => false,
        },
{
    let i = choose|i: int|
        #![trigger entries[i]]
        0 <= i < entries.len() && e.is_about(entries[i]) && forall|j: int|
            0 <= j < i ==> is_good(#[trigger] entries[j]);
    assert forall|j: int| 0 <= j < i implies is_header_name((#[trigger] entries[j]).0)
        && is_header_value(entries[j].1) by {
        assert(is_good(entries[j]));
    }
    i
}

/// Headers are too many only where there are more than a map takes for certain,
/// and all of those can be sent.
pub proof fn only_good_headers_are_too_many(entries: Seq<(Seq<char>, Seq<char>)>, j: int)
    requires
        HeaderError::TooMany.explains(entries),
        0 <= j <= 6554,
    ensures
        entries.len() > 6554,
        is_header_name(entries[j].0) && is_header_value(entries[j].1),
{
    assert(is_good(entries[j]));
}

/// Headers are ready to be sent, or the error says what is wrong with them, never
/// both.
pub proof fn headers_are_sent_or_refused(
    headers: &Table<String>,
    r: Result<HeaderMap<HeaderValue>, HeaderError>,
)
    requires
        call_ensures(parse_headers, (headers,), r),
    ensures
        ({
            let entries = headers.entries();
            let good = forall|j: int|
                0 <= j < entries.len() ==> is_header_name((#[trigger] entries[j]).0)
                    && is_header_value(entries[j].1);
            &&& good && entries.len() <= 6554 ==> r is Ok
            &&& r is Ok ==> good && holds(r->Ok_0, entries)
            &&& r is Err && r->Err_0 is TooMany ==> entries.len() > 6554
        }),
{
    let entries = headers.entries();
    if r is Ok {
        assert forall|j: int| 0 <= j < entries.len() implies is_header_name(
            (#[trigger] entries[j]).0,
        ) && is_header_value(entries[j].1) by {
            assert(is_good(entries[j]));
        }
    } else {
        only_bad_headers_are_refused(r->Err_0, arbitrary(), entries, 0);
    }
}

/// The messages on a header give its whole name, and the whole value or the whole
/// reason.
pub proof fn header_messages_are_complete(e: &HeaderError, stream: String, sse: String)
    requires
        call_ensures(HeaderError::stream_client_message, (e,), stream),
        call_ensures(HeaderError::sse_client_message, (e,), sse),
    ensures
        match *e {
            HeaderError::InvalidName { key, reason } => {
                &&& frames(stream@, "Invalid header name: "@, key@, Seq::empty())
                &&& frames(sse@, "Invalid header name '"@, key@, "': "@ + reason@)
            },
            HeaderError::InvalidValue { key, value, reason } => {
                &&& frames(stream@, "Invalid header value for "@, key@, ": "@ + value@)
                &&& frames(sse@, "Invalid header value for '"@, key@, "': "@ + reason@)
            },
            HeaderError::TooMany => stream@ == sse@,
        },
{
}

} // verus!
