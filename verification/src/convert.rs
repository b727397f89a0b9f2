//! A client on the command line for a service behind a URL.

use vstd::prelude::*;

use crate::client_config::{
    build_mcp_config, client_headers, client_sends_what_was_asked_for, is_authorization, is_marked,
    McpClientConfig,
};
use crate::model::McpProtocol;
use crate::start_task::sends_headers;
use crate::table::{distinct_keys, Table};
use crate::text::{concat2, concat3, frames};

verus! {

/// A protocol that can be asked for on the command line.
#[derive(Clone, Copy, Debug, PartialEq, Eq, Structural)]
pub enum ProxyProtocol {
    Sse,
    Stream,
}

impl ProxyProtocol {
    /// The protocol.
    pub open spec fn protocol(self) -> McpProtocol {
        match self {
            ProxyProtocol::Sse => McpProtocol::Sse,
            ProxyProtocol::Stream => McpProtocol::Stream,
        }
    }
}

/// Where the protocol of a service comes from.
#[derive(Clone, Copy, Debug, PartialEq, Eq, Structural)]
pub enum ProtocolSource {
    /// It was given on the command line.
    CommandLine(McpProtocol),
    /// The configuration names it.
    Config(McpProtocol),
    /// It has to be detected.
    Detect,
}

/// Where the protocol of a service comes from: the command line goes over the
/// configuration, and it is detected where neither names it.
pub fn choose_protocol(
    cli_protocol: Option<ProxyProtocol>,
    config_protocol: Option<McpProtocol>,
) -> (r: ProtocolSource)
    ensures
        r == (match (cli_protocol, config_protocol) {
            (Some(p), _) => ProtocolSource::CommandLine(p.protocol()),
            (None, Some(p)) => ProtocolSource::Config(p),
            (None, None) => ProtocolSource::Detect,
        }),
{
    match (cli_protocol, config_protocol) {
        (Some(ProxyProtocol::Sse), _) => ProtocolSource::CommandLine(McpProtocol::Sse),
        (Some(ProxyProtocol::Stream), _) => ProtocolSource::CommandLine(McpProtocol::Stream),
        (None, Some(p)) => ProtocolSource::Config(p),
        (None, None) => ProtocolSource::Detect,
    }
}

/// The line on where the protocol comes from. `name` is its name, where it is
/// known.
pub open spec fn source_line(source: ProtocolSource, name: Seq<char>) -> Seq<char> {
    match source {
        ProtocolSource::CommandLine(_) => "🔧 Using protocol from CLI: "@ + name,
        ProtocolSource::Config(_) => "🔧 Using protocol from config: "@ + name,
        ProtocolSource::Detect => "🔍 Detecting protocol..."@,
    }
}

/// The line on where the protocol comes from, where the user is to see it.
pub fn source_notice(source: ProtocolSource, name: &str, quiet: bool) -> (r: Option<String>)
    ensures
        r is Some == !quiet,
        r is Some ==> r->0@ == source_line(source, name@),
{
    if quiet {
        return None;
    }
    let line: String = match source {
        ProtocolSource::CommandLine(_) => concat2("🔧 Using protocol from CLI: ", name),
        ProtocolSource::Config(_) => concat2("🔧 Using protocol from config: ", name),
        ProtocolSource::Detect => "🔍 Detecting protocol...".to_owned(),
    };
    Some(line)
}

/// The line on a protocol that has been detected, where the user is to see it.
pub fn detected_notice(name: &str, quiet: bool) -> (r: Option<String>)
    ensures
        r is Some == !quiet,
        r is Some ==> r->0@ == "🔍 Detected protocol: "@ + name@,
{
    if quiet {
        None
    } else {
        Some(concat2("🔍 Detected protocol: ", name))
    }
}

/// The first line that a user sees. It is left out where there are headers.
pub fn url_banner(url: &str, headers: &Table<String>, quiet: bool) -> (r: Option<String>)
    ensures
        r is Some == (!quiet && headers.entries().len() == 0),
        r is Some ==> r->0@ == "🚀 MCP-Stdio-Proxy: "@ + url@ + " → stdio"@,
{
    if !quiet && headers.is_empty() {
        Some(concat3("🚀 MCP-Stdio-Proxy: ", url, " → stdio"))
    } else {
        None
    }
}

/// How a service behind a URL is served.
#[derive(Debug)]
pub enum UrlMode {
    /// Over server-sent events.
    Sse(McpClientConfig),
    /// Over streamable HTTP.
    Stream(McpClientConfig),
}

impl UrlMode {
    /// The connection to the service.
    pub open spec fn config(self) -> McpClientConfig {
        match self {
            UrlMode::Sse(config) => config,
            UrlMode::Stream(config) => config,
        }
    }
}

/// How a service behind a URL is served, or why it cannot be.
pub fn url_mode(
    protocol: McpProtocol,
    url: &str,
    merged_headers: &Table<String>,
    auth: Option<&String>,
) -> (r: Result<UrlMode, String>)
    ensures
        match r {
            Ok(mode) => {
                &&& mode is Sse == protocol is Sse
                &&& mode is Stream == protocol is Stream
                &&& mode.config().url@ == url@
                &&& mode.config().headers@ == client_headers(
                    merged_headers.entries(),
                    match auth {
                        Some(value) => Some(value@),
                        None => None,
                    },
                )
                &&& mode.config().connect_timeout is None
                &&& mode.config().read_timeout is None
            },
            Err(message) => {
                &&& protocol is Stdio
                &&& message@
                    == "Stdio protocol does not support URL conversion, please use --config for local commands"@
            },
        },
{
    let config: McpClientConfig = build_mcp_config(url, merged_headers, auth);
    match protocol {
        McpProtocol::Sse => Ok(UrlMode::Sse(config)),
        McpProtocol::Stream => Ok(UrlMode::Stream(config)),
        McpProtocol::Stdio => Err(
            "Stdio protocol does not support URL conversion, please use --config for local commands".to_owned(),
        ),
    }
}

/// The line when a service could not be served any longer.
pub fn mode_failure(mode: &UrlMode, reason: &str) -> (r: String)
    ensures
        r@ == (if mode is Sse {
            "❌ SSE mode failed: "@
        } else {
            "❌ Stream mode failed: "@
        }) + reason@,
{
    match mode {
        UrlMode::Sse(_) => concat2("❌ SSE mode failed: ", reason),
        UrlMode::Stream(_) => concat2("❌ Stream mode failed: ", reason),
    }
}

/// The protocol that is asked for on the command line is used whatever the
/// configuration names; without one, that of the configuration is; and it is
/// detected exactly where neither names one.
pub proof fn command_line_goes_over_the_configuration(
    cli_protocol: Option<ProxyProtocol>,
    config_protocol: Option<McpProtocol>,
    r: ProtocolSource,
)
    requires
        call_ensures(choose_protocol, (cli_protocol, config_protocol), r),
    ensures
        cli_protocol == Some(ProxyProtocol::Sse) ==> r == ProtocolSource::CommandLine(
            McpProtocol::Sse,
        ),
        cli_protocol == Some(ProxyProtocol::Stream) ==> r == ProtocolSource::CommandLine(
            McpProtocol::Stream,
        ),
        cli_protocol is None && config_protocol is Some ==> r == ProtocolSource::Config(
            config_protocol->0,
        ),
        r is Detect <==> cli_protocol is None && config_protocol is None,
{
}

/// A service that speaks over HTTP is served under its whole URL, with every
/// header that was asked for; a value that was given for authorization is sent as
/// it is, in place of what the headers say. One that speaks over standard input
/// and output has no URL.
pub proof fn url_is_served_as_asked(
    protocol: McpProtocol,
    url: &str,
    headers: &Table<String>,
    auth: Option<&String>,
    r: Result<UrlMode, String>,
)
    requires
        call_ensures(url_mode, (protocol, url, headers, auth), r),
    ensures
        r is Err <==> protocol is Stdio,
        r is Err ==> r->Err_0@
            == "Stdio protocol does not support URL conversion, please use --config for local commands"@,
        r is Ok ==> {
            let config = match r->Ok_0 {
                UrlMode::Sse(config) => config,
                UrlMode::Stream(config) => config,
            };
            &&& r->Ok_0 is Sse <==> protocol is Sse
            &&& config.url@ == url@
            &&& auth is Some ==> config.headers@["Authorization"@] == auth->0@
            &&& distinct_keys(headers.entries()) ==> sends_headers(
                config.headers@,
                headers.entries(),
                auth is Some,
            )
        },
{
    if r is Ok && distinct_keys(headers.entries()) {
        let entries = headers.entries();
        let given = match auth {
            Some(value) => Some(value@),
            None => None,
        };
        assert forall|i: int|
            0 <= i < entries.len() && !(auth is Some && (#[trigger] entries[i]).0
                == "Authorization"@) implies {
            let sent_headers = client_headers(entries, given);
            &&& sent_headers.contains_key(entries[i].0)
            &&& if is_authorization(entries[i].0) && !is_marked(entries[i].1) {
                is_marked(sent_headers[entries[i].0]) && sent_headers[entries[i].0].skip(7)
                    == entries[i].1
            } else {
                sent_headers[entries[i].0] == entries[i].1
            }
        } by {
            client_sends_what_was_asked_for(entries, given, entries[i].0, i);
        }
    }
}

/// A user who wants to see it is told where the protocol comes from, under its
/// whole name; a quiet client shows nothing.
pub proof fn user_is_told_the_protocol(
    source: ProtocolSource,
    name: &str,
    quiet: bool,
    from: Option<String>,
    detected: Option<String>,
)
    requires
        call_ensures(source_notice, (source, name, quiet), from),
        call_ensures(detected_notice, (name, quiet), detected),
    ensures
        from is Some <==> !quiet,
        detected is Some <==> !quiet,
        !quiet ==> frames(detected->0@, "🔍 Detected protocol: "@, name@, Seq::empty()),
        !quiet ==> match source {
            ProtocolSource::CommandLine(_) => frames(
                from->0@,
                "🔧 Using protocol from CLI: "@,
                name@,
                Seq::empty(),
            ),
            ProtocolSource::Config(_) => frames(
                from->0@,
                "🔧 Using protocol from config: "@,
                name@,
                Seq::empty(),
            ),
            ProtocolSource::Detect => from->0@ == "🔍 Detecting protocol..."@,
        },
{
}

/// The first line shows the whole URL, to a user who wants to see it and gave no
/// headers. When a service cannot be served any longer, the whole reason is given.
pub proof fn user_is_told_the_url_and_the_reason(
    url: &str,
    headers: &Table<String>,
    quiet: bool,
    line: Option<String>,
    mode: &UrlMode,
    reason: &str,
    failure: String,
)
    requires
        call_ensures(url_banner, (url, headers, quiet), line),
        call_ensures(mode_failure, (mode, reason), failure),
    ensures
        line is Some <==> !quiet && headers.entries().len() == 0,
        line is Some ==> frames(line->0@, "🚀 MCP-Stdio-Proxy: "@, url@, " → stdio"@),
        mode is Sse ==> frames(failure@, "❌ SSE mode failed: "@, reason@, Seq::empty()),
        mode is Stream ==> frames(failure@, "❌ Stream mode failed: "@, reason@, Seq::empty()),
{
}

} // verus!
