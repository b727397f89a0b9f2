//! Standard headers on requests that carry an envelope.
//!
//! A backend checks three headers of a tool call that declares its protocol
//! version and its client's capabilities in its metadata. They are derived from
//! the message itself, so that they agree with it. Every other request is sent
//! with the headers it has.

use vstd::prelude::*;

use crate::headers::{is_header_value, parse_header_value};
use crate::table::{map_of, Table};

verus! {

/// Where a request's metadata declares the protocol version.
pub const ENVELOPE_PROTOCOL_VERSION_KEY: &'static str = "io.modelcontextprotocol/protocolVersion";

/// Where a request's metadata declares the capabilities of the client.
pub const ENVELOPE_CLIENT_CAPABILITIES_KEY: &'static str =
    "io.modelcontextprotocol/clientCapabilities";

/// A value in a request's metadata, as far as it is looked at.
#[derive(Clone, Debug)]
pub enum MetaValue {
    Text(String),
    Object,
    /// Null, a truth value, a number or a list.
    Other,
}

/// The contents of a [`MetaValue`].
pub enum MetaValueView {
    Text(Seq<char>),
    Object,
    Other,
}

impl View for MetaValue {
    type V = MetaValueView;

    open spec fn view(&self) -> MetaValueView {
        match self {
            MetaValue::Text(text) => MetaValueView::Text(text@),
            MetaValue::Object => MetaValueView::Object,
            MetaValue::Other => MetaValueView::Other,
        }
    }
}

/// A call of a tool, as far as it is looked at.
#[derive(Debug)]
pub struct ToolCall {
    /// The name of the tool.
    pub name: String,
    /// The metadata that was set on the parameters.
    pub params_meta: Option<Table<MetaValue>>,
    /// The metadata that came with the message, or that sending it added.
    pub extensions_meta: Option<Table<MetaValue>>,
}

/// A message to a backend.
#[derive(Debug)]
pub enum ClientMessage {
    CallTool(ToolCall),
    OtherRequest,
    /// A notification, a response or an error.
    NotARequest,
}

/// The value of a key, where there is a table and the key is in it.
pub open spec fn in_meta(meta: Option<Table<MetaValue>>, key: Seq<char>) -> Option<MetaValueView> {
    if meta is Some && meta->0@.contains_key(key) {
        Some(meta->0@[key])
    } else {
        None
    }
}

impl ToolCall {
    /// The value of a key in the metadata as it is sent: that of the message
    /// goes over that of the parameters.
    pub open spec fn meta(self, key: Seq<char>) -> Option<MetaValueView> {
        match in_meta(self.extensions_meta, key) {
            Some(value) => Some(value),
            None => in_meta(self.params_meta, key),
        }
    }

    /// The value of a key in the metadata as it is sent.
    fn lookup(&self, key: &str) -> (r: Option<&MetaValue>)
        ensures
            match r {
                Some(value) => self.meta(key@) == Some(value@),
                None => self.meta(key@) is None,
            },
    {
        if let Some(meta) = &self.extensions_meta {
            if let Some(value) = meta.get(key) {
                return Some(value);
            }
        }
        match &self.params_meta {
            Some(meta) => meta.get(key),
            None => None,
        }
    }
}

/// The envelope of a message: the protocol version that it declares and the
/// tool that it calls. A message has one where it is a call of a tool that
/// declares a version, as text, and capabilities, as an object.
pub open spec fn envelope(message: ClientMessage) -> Option<(Seq<char>, Seq<char>)> {
    match message {
        ClientMessage::CallTool(call) => match call.meta(ENVELOPE_PROTOCOL_VERSION_KEY@) {
            Some(MetaValueView::Text(version)) if call.meta(ENVELOPE_CLIENT_CAPABILITIES_KEY@)
                == Some(MetaValueView::Object) => Some((version, call.name@)),
            _ => None,
        },
        _ => None,
    }
}

/// The envelope of a message, where it has one.
pub fn extract_mrtr_envelope(message: &ClientMessage) -> (r: Option<(String, String)>)
    ensures
        match r {
            Some((version, name)) => envelope(*message) == Some((version@, name@)),
            None => envelope(*message) is None,
        },
{
    match message {
        ClientMessage::CallTool(call) => match (
            call.lookup(ENVELOPE_PROTOCOL_VERSION_KEY),
            call.lookup(ENVELOPE_CLIENT_CAPABILITIES_KEY),
        ) {
            (Some(MetaValue::Text(version)), Some(MetaValue::Object)) => Some(
                (version.clone(), call.name.clone()),
            ),
            _ => None,
        },
        _ => None,
    }
}

/// The headers that belong to an envelope.
pub open spec fn envelope_headers(version: Seq<char>, name: Seq<char>) -> Map<
    Seq<char>,
    Seq<char>,
> {
    Map::<Seq<char>, Seq<char>>::empty().insert("mcp-protocol-version"@, version).insert(
        "mcp-method"@,
        "tools/call"@,
    ).insert("mcp-name"@, name)
}

/// The headers that belong to an envelope, where both of its texts can be sent
/// in a header.
pub fn mrtr_headers(version: &str, name: &str) -> (r: Option<Table<String>>)
    ensures
        r is Some == (is_header_value(version@) && is_header_value(name@)),
        r is Some ==> r->0@ == envelope_headers(version@, name@),
{
    let protocol_version: String = match parse_header_value(version) {
        Ok(value) => value,
        Err(_) => {
            return None;
        },
    };
    let mcp_name: String = match parse_header_value(name) {
        Ok(value) => value,
        Err(_) => {
            return None;
        },
    };
    let headers: Table<String> = Table::new();
    Some(
        headers.with("mcp-protocol-version".to_owned(), protocol_version).with(
            "mcp-method".to_owned(),
            "tools/call".to_owned(),
        ).with("mcp-name".to_owned(), mcp_name),
    )
}

/// The headers of a request whose own headers are `custom`: those that belong
/// to its envelope go over them, where it has one that can be sent.
pub open spec fn outgoing(message: ClientMessage, custom: Map<Seq<char>, Seq<char>>) -> Map<
    Seq<char>,
    Seq<char>,
> {
    match envelope(message) {
        Some((version, name)) if is_header_value(version) && is_header_value(name) =>
            custom.union_prefer_right(envelope_headers(version, name)),
        _ => custom,
    }
}

/// The headers of a request whose own headers are `custom`.
pub fn outgoing_headers(message: &ClientMessage, custom: Table<String>) -> (r: Table<String>)
    ensures
        r@ == outgoing(*message, custom@),
{
    let (version, name) = match extract_mrtr_envelope(message) {
        Some(envelope) => envelope,
        None => {
            return custom;
        },
    };
    match mrtr_headers(version.as_str(), name.as_str()) {
        Some(extra) => over(custom, &extra),
        None => custom,
    }
}

/// One table with another over it.
fn over(table: Table<String>, extra: &Table<String>) -> (r: Table<String>)
    ensures
        r@ == table@.union_prefer_right(extra@),
{
    let ghost entries = extra.entries();
    let n: usize = extra.len();
    let mut r: Table<String> = table;
    let mut i: usize = 0;
    assert(table@.union_prefer_right(map_of(entries.take(0))) =~= table@);
    while i < n
        invariant
            i <= n,
            n == entries.len(),
            entries == extra.entries(),
            r@ == table@.union_prefer_right(map_of(entries.take(i as int))),
        decreases n - i,
    {
        let ghost so_far = map_of(entries.take(i as int));
        proof {
            assert(entries.take(i + 1).drop_last() =~= entries.take(i as int));
        }
        r = r.with(extra.key(i).clone(), extra.value(i).clone());
        assert(r@ =~= table@.union_prefer_right(map_of(entries.take(i + 1))));
        i += 1;
    }
    assert(entries.take(n as int) =~= entries);
    r
}

/// A client that adds the headers of an envelope to what another sends.
#[derive(Clone, Debug)]
pub struct MrtrHeaderClient<C> {
    inner: C,
}

impl<C> MrtrHeaderClient<C> {
    /// The client that sends.
    pub closed spec fn sender(self) -> C {
        self.inner
    }

    /// A client that sends through `inner`.
    pub fn new(inner: C) -> (r: Self)
        ensures
            r.sender() == inner,
    {
        MrtrHeaderClient { inner }
    }

    /// The client that sends.
    pub fn inner(&self) -> (r: &C)
        ensures
            *r == self.sender(),
    {
        &self.inner
    }
}

/// The headers of a request with an envelope agree with the envelope.
pub proof fn headers_agree_with_the_envelope(
    message: ClientMessage,
    custom: Map<Seq<char>, Seq<char>>,
    version: Seq<char>,
    name: Seq<char>,
)
    requires
        envelope(message) == Some((version, name)),
        is_header_value(version),
        is_header_value(name),
    ensures
        outgoing(message, custom)["mcp-protocol-version"@] == version,
        outgoing(message, custom)["mcp-method"@] == "tools/call"@,
        outgoing(message, custom)["mcp-name"@] == name,
{
    lemma_header_names_differ();
}

proof fn lemma_header_names_differ()
    ensures
        "mcp-protocol-version"@ != "mcp-method"@,
        "mcp-protocol-version"@ != "mcp-name"@,
        "mcp-method"@ != "mcp-name"@,
{
    reveal_strlit("mcp-protocol-version");
    reveal_strlit("mcp-method");
    reveal_strlit("mcp-name");
    assert("mcp-protocol-version"@.len() == 20);
    assert("mcp-method"@.len() == 10);
    assert("mcp-name"@.len() == 8);
}

/// A request without an envelope is sent with the headers it has.
pub proof fn other_requests_pass_unchanged(
    message: ClientMessage,
    custom: Map<Seq<char>, Seq<char>>,
)
    requires
        envelope(message) is None,
    ensures
        outgoing(message, custom) == custom,
{
}

/// Headers that do not belong to an envelope are sent as they are.
pub proof fn other_headers_are_kept(
    message: ClientMessage,
    custom: Map<Seq<char>, Seq<char>>,
    name: Seq<char>,
)
    requires
        name != "mcp-protocol-version"@,
        name != "mcp-method"@,
        name != "mcp-name"@,
    ensures
        outgoing(message, custom).contains_key(name) == custom.contains_key(name),
        custom.contains_key(name) ==> outgoing(message, custom)[name] == custom[name],
{
}

/// What a message declares goes over what its parameters declare.
pub proof fn message_metadata_goes_first(call: ToolCall, key: Seq<char>)
    requires
        call.extensions_meta is Some,
        call.extensions_meta->0@.contains_key(key),
    ensures
        call.meta(key) == Some(call.extensions_meta->0@[key]),
{
}

/// The metadata of a call, as it is sent, has this value under a key: the
/// metadata of the message has it, or the parameters have it and the message has
/// none.
pub open spec fn declares(call: ToolCall, key: Seq<char>, value: MetaValueView) -> bool {
    let in_message = call.extensions_meta is Some && call.extensions_meta->0@.contains_key(key);
    let in_params = call.params_meta is Some && call.params_meta->0@.contains_key(key);
    if in_message {
        call.extensions_meta->0@[key] == value
    } else {
        in_params && call.params_meta->0@[key] == value
    }
}

/// A call has an envelope exactly where its metadata declares a protocol version,
/// as text, and the capabilities of the client, as an object. The envelope is
/// that whole text and the whole name of the tool, whatever they are.
pub proof fn envelope_is_what_the_call_declares(
    call: ToolCall,
    version: Seq<char>,
    name: Seq<char>,
)
    ensures
        ({
            let complete = declares(
                call,
                "io.modelcontextprotocol/protocolVersion"@,
                MetaValueView::Text(version),
            ) && declares(
                call,
                "io.modelcontextprotocol/clientCapabilities"@,
                MetaValueView::Object,
            );
            let found = envelope(ClientMessage::CallTool(call));
            &&& complete ==> found == Some((version, call.name@))
            &&& found == Some((version, name)) ==> complete && name == call.name@
        }),
{
}

/// Only a call of a tool has an envelope.
pub proof fn only_calls_have_an_envelope(message: ClientMessage)
    requires
        !(message is CallTool),
    ensures
        envelope(message) is None,
{
}

/// Calls with the same metadata declare the same version, whichever tools they
/// call, and each envelope names its own tool.
pub proof fn name_of_the_tool_does_not_decide(a: ToolCall, b: ToolCall, version: Seq<char>)
    requires
        a.params_meta == b.params_meta,
        a.extensions_meta == b.extensions_meta,
    ensures
        ({
            let x = envelope(ClientMessage::CallTool(a));
            let y = envelope(ClientMessage::CallTool(b));
            &&& x is Some <==> y is Some
            &&& x == Some((version, a.name@)) <==> y == Some((version, b.name@))
        }),
{
}

/// A call with an envelope that can be sent is sent with the version that it
/// declares, with its method and with the whole name of its tool, in place of
/// what the headers said, and with every other header as it was.
pub proof fn call_is_sent_with_its_envelope(
    call: ToolCall,
    version: Seq<char>,
    custom: Map<Seq<char>, Seq<char>>,
)
    requires
        declares(
            call,
            "io.modelcontextprotocol/protocolVersion"@,
            MetaValueView::Text(version),
        ),
        declares(call, "io.modelcontextprotocol/clientCapabilities"@, MetaValueView::Object),
        is_header_value(version),
        is_header_value(call.name@),
    ensures
        ({
            let headers = outgoing(ClientMessage::CallTool(call), custom);
            &&& headers.contains_key("mcp-protocol-version"@)
            &&& headers["mcp-protocol-version"@] == version
            &&& headers.contains_key("mcp-method"@) && headers["mcp-method"@] == "tools/call"@
            &&& headers.contains_key("mcp-name"@) && headers["mcp-name"@] == call.name@
            &&& forall|key: Seq<char>|
                key != "mcp-protocol-version"@ && key != "mcp-method"@ && key != "mcp-name"@ ==> {
                    &&& #[trigger] headers.contains_key(key) <==> custom.contains_key(key)
                    &&& custom.contains_key(key) ==> headers[key] == custom[key]
                }
        }),
{
    lemma_header_names_differ();
    envelope_is_what_the_call_declares(call, version, call.name@);
}

/// A call whose version or whose tool cannot be sent in a header is sent with the
/// headers it has.
pub proof fn envelope_that_cannot_be_sent_is_left_out(
    call: ToolCall,
    version: Seq<char>,
    custom: Map<Seq<char>, Seq<char>>,
)
    requires
        declares(
            call,
            "io.modelcontextprotocol/protocolVersion"@,
            MetaValueView::Text(version),
        ),
        !is_header_value(version) || !is_header_value(call.name@),
    ensures
        outgoing(ClientMessage::CallTool(call), custom) == custom,
{
    envelope_is_what_the_call_declares(call, version, call.name@);
}

/// A text in a request's metadata is looked at whole.
pub proof fn texts_in_metadata_are_read_whole(text: String)
    ensures
        MetaValue::Text(text)@ == MetaValueView::Text(text@),
        MetaValue::Object@ is Object,
        MetaValue::Other@ is Other,
{
}

/// The envelope of a call is read off its metadata: it is there exactly where a
/// version is declared, as text, and capabilities are, as an object, and it is
/// that version and the name of the tool. Other messages have none.
pub proof fn envelope_is_read_off_the_call(
    message: &ClientMessage,
    r: Option<(String, String)>,
    version: Seq<char>,
)
    requires
        call_ensures(extract_mrtr_envelope, (message,), r),
    ensures
        !(message is CallTool) ==> r is None,
        message is CallTool && declares(
            message->CallTool_0,
            "io.modelcontextprotocol/protocolVersion"@,
            MetaValueView::Text(version),
        ) && declares(
            message->CallTool_0,
            "io.modelcontextprotocol/clientCapabilities"@,
            MetaValueView::Object,
        ) ==> match r {
            Some((found, name)) => found@ == version && name@ == message->CallTool_0.name@,
            None => false,
        },
        match r {
            Some((found, name)) => {
                &&& message is CallTool
                &&& name@ == message->CallTool_0.name@
                &&& declares(
                    message->CallTool_0,
                    "io.modelcontextprotocol/protocolVersion"@,
                    MetaValueView::Text(found@),
                )
                &&& declares(
                    message->CallTool_0,
                    "io.modelcontextprotocol/clientCapabilities"@,
                    MetaValueView::Object,
                )
            },
            None => true,
        },
{
    if message is CallTool {
        let call = message->CallTool_0;
        envelope_is_what_the_call_declares(call, version, call.name@);
        match r {
            Some((found, name)) => {
                envelope_is_what_the_call_declares(call, found@, name@);
            },
            None => {},
        }
    } else {
        only_calls_have_an_envelope(*message);
    }
}

/// A request keeps each of its headers that an envelope does not set.
pub proof fn request_keeps_its_other_headers(
    message: &ClientMessage,
    custom: Table<String>,
    r: Table<String>,
    key: Seq<char>,
)
    requires
        call_ensures(outgoing_headers, (message, custom), r),
    ensures
        !(message is CallTool) ==> r@ == custom@,
        key != "mcp-protocol-version"@ && key != "mcp-method"@ && key != "mcp-name"@ ==> {
            &&& r@.contains_key(key) <==> custom@.contains_key(key)
            &&& custom@.contains_key(key) ==> r@[key] == custom@[key]
        },
{
    if !(message is CallTool) {
        only_calls_have_an_envelope(*message);
    }
    if key != "mcp-protocol-version"@ && key != "mcp-method"@ && key != "mcp-name"@ {
        other_headers_are_kept(*message, custom@, key);
    }
}

/// A call whose metadata declares an envelope that can be sent is sent with it.
pub proof fn declared_envelope_is_sent(
    message: &ClientMessage,
    custom: Table<String>,
    r: Table<String>,
    version: Seq<char>,
)
    requires
        call_ensures(outgoing_headers, (message, custom), r),
        message is CallTool,
        declares(
            message->CallTool_0,
            "io.modelcontextprotocol/protocolVersion"@,
            MetaValueView::Text(version),
        ),
        declares(
            message->CallTool_0,
            "io.modelcontextprotocol/clientCapabilities"@,
            MetaValueView::Object,
        ),
    ensures
        is_header_value(version) && is_header_value(message->CallTool_0.name@) ==> {
            &&& r@.contains_key("mcp-protocol-version"@) && r@["mcp-protocol-version"@] == version
            &&& r@.contains_key("mcp-method"@) && r@["mcp-method"@] == "tools/call"@
            &&& r@.contains_key("mcp-name"@) && r@["mcp-name"@] == message->CallTool_0.name@
        },
        !is_header_value(version) || !is_header_value(message->CallTool_0.name@) ==> r@ == custom@,
{
    let call = message->CallTool_0;
    if is_header_value(version) && is_header_value(call.name@) {
        call_is_sent_with_its_envelope(call, version, custom@);
    } else {
        envelope_that_cannot_be_sent_is_left_out(call, version, custom@);
    }
}

/// A client that adds headers sends through the client that it was made with.
pub proof fn client_sends_through_its_inner_client<C>(
    inner: C,
    client: MrtrHeaderClient<C>,
    r: &C,
)
    requires
        call_ensures(MrtrHeaderClient::<C>::new, (inner,), client),
        call_ensures(MrtrHeaderClient::<C>::inner, (&client,), r),
    ensures
        *r == inner,
{
}

/// The three headers of an envelope are there exactly where both of its texts can
/// be sent, each whole, and there is no other.
pub proof fn envelope_has_three_headers(
    version: &str,
    name: &str,
    r: Option<Table<String>>,
    key: Seq<char>,
)
    requires
        call_ensures(mrtr_headers, (version, name), r),
    ensures
        r is Some <==> is_header_value(version@) && is_header_value(name@),
        r is Some ==> r->0@["mcp-protocol-version"@] == version@,
        r is Some ==> r->0@["mcp-method"@] == "tools/call"@,
        r is Some ==> r->0@["mcp-name"@] == name@,
        r is Some ==> (r->0@.contains_key(key) <==> key == "mcp-protocol-version"@ || key
            == "mcp-method"@ || key == "mcp-name"@),
{
    lemma_header_names_differ();
}

} // verus!
