//! A client for streamable HTTP.

use vstd::prelude::*;

use crate::backoff::{
    first_wait_is_the_base, waits_are_capped, waits_double_up_to_the_limit,
    CappedExponentialBackoff,
};
use crate::client_config::{http_client_plan, HttpClientPlan, McpClientConfig};
use crate::headers::{
    holds, is_header_name, is_header_value, only_bad_headers_are_refused, HeaderError,
};
use crate::launch::{create_default_client_info, ClientProfile};
use crate::time::{Duration, NANOS_PER_SEC};

verus! {

/// What a connection over streamable HTTP is made from.
#[derive(Debug)]
pub struct StreamConnectionPlan {
    pub url: String,
    pub http: HttpClientPlan,
    /// How long to wait before the event stream is opened again.
    pub retry: CappedExponentialBackoff,
    /// What the backend is told of the client.
    pub client_info: ClientProfile,
}

/// What a connection over streamable HTTP is made from, or what is wrong with
/// its headers. A stream that breaks is opened again without limit, after a
/// wait that doubles from a second to a minute.
pub fn stream_connection_plan(config: &McpClientConfig, version: &str) -> (r: Result<
    StreamConnectionPlan,
    HeaderError,
>)
    ensures
        match r {
            Ok(plan) => {
                &&& plan.url@ == config.url@
                &&& holds(plan.http.headers, config.headers.entries())
                &&& plan.http.connect_timeout == config.connect_timeout
                &&& plan.http.timeout == config.read_timeout
                &&& plan.retry.max_times is None
                &&& plan.retry.base_duration@ == 1 * NANOS_PER_SEC
                &&& plan.retry.max_interval@ == 60 * NANOS_PER_SEC
                &&& plan.client_info.name is Some && plan.client_info.name->0@
                    == "mcp-streamable-proxy-client"@
                &&& plan.client_info.version is Some && plan.client_info.version->0@ == version@
                &&& plan.client_info.protocol_version is None
                &&& plan.client_info.has_usual_capabilities()
                &&& !plan.client_info.elicitation
            },
            Err(e) => e.explains(config.headers.entries()),
        },
{
    match http_client_plan(config) {
        Ok(http) => Ok(
            StreamConnectionPlan {
                url: config.url.clone(),
                http,
                retry: CappedExponentialBackoff::new(
                    None,
                    Duration::from_secs(1),
                    Duration::from_secs(60),
                ),
                client_info: create_default_client_info(version),
            },
        ),
        Err(e) => Err(e),
    }
}

/// A connection is made to the whole URL with every header of its configuration,
/// and fails only for headers. A stream that breaks is opened again without limit:
/// after a second, then after twice the wait before, and never after more than a
/// minute.
pub proof fn stream_is_opened_again_without_limit(
    config: &McpClientConfig,
    version: &str,
    r: Result<StreamConnectionPlan, HeaderError>,
    times: nat,
)
    requires
        call_ensures(stream_connection_plan, (config, version), r),
    ensures
        ({
            let entries = config.headers.entries();
            entries.len() <= 6554 && (forall|i: int|
                0 <= i < entries.len() ==> is_header_name((#[trigger] entries[i]).0)
                    && is_header_value(entries[i].1)) ==> r is Ok
        }),
        r is Ok ==> {
            let plan = r->Ok_0;
            &&& plan.url@ == config.url@
            &&& holds(plan.http.headers, config.headers.entries())
            &&& plan.http.connect_timeout == config.connect_timeout
            &&& plan.http.timeout == config.read_timeout
            &&& plan.retry.wait(times) is Some
            &&& plan.retry.wait(times)->0 <= 60_000_000_000
            &&& plan.retry.wait(0)->0 == 1_000_000_000
            &&& 2 * plan.retry.wait(times)->0 <= 60_000_000_000 ==> plan.retry.wait(times + 1)->0
                == 2 * plan.retry.wait(times)->0
        },
{
    if r is Ok {
        let retry = r->Ok_0.retry;
        waits_are_capped(retry, times);
        first_wait_is_the_base(retry);
        waits_double_up_to_the_limit(retry, times);
    } else {
        only_bad_headers_are_refused(r->Err_0, arbitrary(), config.headers.entries(), 0);
    }
}

} // verus!
