//! A server for streamable HTTP in front of a child process.

use vstd::prelude::*;

use crate::launch::{child_gets_what_is_configured, spawn_plan, SpawnPlan};
use crate::table::Table;
use crate::text::{can_shorten, concat2, frames, texts};
use crate::tools::{
    list_server_tools, lists_decide_which_tools_may_be_used, server_tool_lines, ToolFilter,
    ToolInfo, SERVER_DESCRIPTION_LIMIT, SERVER_TOOL_LIMIT,
};

verus! {

/// A service that is served by this process.
#[derive(Clone, Debug)]
pub struct McpServiceConfig {
    pub name: String,
    pub command: String,
    pub args: Option<Vec<String>>,
    pub env: Option<Table<String>>,
    pub tool_filter: Option<ToolFilter>,
}

/// How the child process of a service is started.
pub fn service_spawn_plan(config: &McpServiceConfig) -> (r: SpawnPlan)
    ensures
        r.is_for(config.command@, config.args, config.env),
{
    spawn_plan(config.command.as_str(), &config.args, &config.env)
}

/// The filter on the tools of a service: its own, or one that lets every tool
/// through.
pub fn service_filter(config: McpServiceConfig) -> (r: ToolFilter)
    ensures
        match config.tool_filter {
            Some(filter) => r == filter,
            None => !r.enabled(),
        },
{
    match config.tool_filter {
        Some(filter) => filter,
        None => ToolFilter::default(),
    }
}

/// The lines on the tools of a service, or on why they could not be listed.
pub open spec fn service_tool_report(tools: Result<Vec<ToolInfo>, String>) -> Seq<Seq<char>> {
    match tools {
        Ok(list) => server_tool_lines(list@),
        Err(reason) => seq!["⚠️ Failed to obtain tool list: "@ + reason@],
    }
}

/// The lines once the child process of a service is connected. A quiet server
/// shows none.
pub fn service_started_lines(tools: &Result<Vec<ToolInfo>, String>, quiet: bool) -> (r: Vec<
    String,
>)
    requires
        !quiet && tools is Ok ==> forall|i: int|
            0 <= i < tools->Ok_0@.len() && i < SERVER_TOOL_LIMIT && (
            #[trigger] tools->Ok_0@[i]).description is Some ==> can_shorten(
                tools->Ok_0@[i].description->0@,
                SERVER_DESCRIPTION_LIMIT as int,
            ),
    ensures
        texts(r@) == (if quiet {
            Seq::<Seq<char>>::empty()
        } else {
            seq!["✅ The child process has been started"@] + service_tool_report(*tools)
        }),
{
    let mut r: Vec<String> = Vec::new();
    if quiet {
        assert(texts(r@) =~= Seq::<Seq<char>>::empty());
        return r;
    }
    r.push("✅ The child process has been started".to_owned());
    let mut lines: Vec<String> = match tools {
        Ok(list) => list_server_tools(list),
        Err(reason) => {
            let line: String = concat2("⚠️ Failed to obtain tool list: ", reason.as_str());
            let mut l: Vec<String> = Vec::new();
            l.push(line);
            assert(texts(l@) =~= seq![line@]);
            l
        },
    };
    let ghost more = texts(lines@);
    r.append(&mut lines);
    assert(texts(r@) =~= seq!["✅ The child process has been started"@] + more);
    r
}

/// Whether a server for streamable HTTP keeps sessions and pushes messages to
/// its clients.
pub const STREAM_SERVER_STATEFUL: bool = true;

/// The address of a server, where it is known.
pub open spec fn shown_address(addr: Option<String>) -> Seq<char> {
    match addr {
        Some(a) => a@,
        None => "<unknown>"@,
    }
}

/// The lines when a server begins to serve.
pub open spec fn serving_lines(addr: Seq<char>) -> Seq<Seq<char>> {
    seq![
        "📡 Streamable HTTP service startup: http://"@ + addr,
        "💡 MCP client can be used directly: http://"@ + addr,
        "✨ Feature: stateful_mode (session management + server push)"@,
        "🔄 Backend version control: Enable (automatically handles reconnections)"@,
        "💡 Press Ctrl+C to stop the service"@,
    ]
}

/// The lines when a server begins to serve at an address, where it is known. A
/// quiet server shows none.
pub fn serving_notice(addr: &Option<String>, quiet: bool) -> (r: Vec<String>)
    ensures
        texts(r@) == (if quiet {
            Seq::<Seq<char>>::empty()
        } else {
            serving_lines(shown_address(*addr))
        }),
{
    let mut r: Vec<String> = Vec::new();
    if quiet {
        assert(texts(r@) =~= Seq::<Seq<char>>::empty());
        return r;
    }
    let bind_addr: &str = match addr {
        Some(a) => a.as_str(),
        None => "<unknown>",
    };
    r.push(concat2("📡 Streamable HTTP service startup: http://", bind_addr));
    r.push(concat2("💡 MCP client can be used directly: http://", bind_addr));
    r.push("✨ Feature: stateful_mode (session management + server push)".to_owned());
    r.push("🔄 Backend version control: Enable (automatically handles reconnections)".to_owned());
    r.push("💡 Press Ctrl+C to stop the service".to_owned());
    assert(texts(r@) =~= serving_lines(shown_address(*addr)));
    r
}

/// The message when a server could not serve any longer.
pub fn server_failure(reason: &str) -> (r: String)
    ensures
        r@ == "服务器错误: "@ + reason@,
{
    concat2("服务器错误: ", reason)
}

/// The child process of a service gets its whole command, all its arguments and
/// all its variables.
pub proof fn service_is_started_as_configured(config: &McpServiceConfig, r: SpawnPlan)
    requires
        call_ensures(service_spawn_plan, (config,), r),
    ensures
        r.command@ == config.command@,
        config.args is None ==> r.args@.len() == 0,
        config.args is Some ==> r.args@.len() == config.args->0@.len() && forall|i: int|
            0 <= i < config.args->0@.len() ==> (#[trigger] r.args@[i])@ == config.args->0@[i]@,
        config.env is None ==> r.env.entries().len() == 0,
        config.env is Some ==> r.env.entries() == config.env->0.entries(),
{
    child_gets_what_is_configured(r, config.command@, config.args, config.env);
}

/// A service filters by its own lists; without a filter of its own every tool may
/// be used.
pub proof fn service_filters_by_its_own_lists(
    config: McpServiceConfig,
    r: ToolFilter,
    name: Seq<char>,
)
    requires
        call_ensures(service_filter, (config,), r),
    ensures
        config.tool_filter is Some ==> r == config.tool_filter->0,
        config.tool_filter is None ==> r.allows(name),
{
    lists_decide_which_tools_may_be_used(r, name);
}

/// A server that is not quiet tells that its child process runs, and lists its
/// tools or gives the whole reason why it cannot. A quiet one shows nothing.
pub proof fn started_service_lists_its_tools(
    tools: &Result<Vec<ToolInfo>, String>,
    quiet: bool,
    r: Vec<String>,
)
    requires
        call_ensures(service_started_lines, (tools, quiet), r),
    ensures
        quiet ==> r@.len() == 0,
        !quiet ==> r@.len() > 0 && r@[0]@ == "✅ The child process has been started"@,
        !quiet && tools is Ok ==> texts(r@).skip(1) == server_tool_lines(tools->Ok_0@),
        !quiet && tools is Err ==> r@.len() == 2 && frames(
            r@[1]@,
            "⚠️ Failed to obtain tool list: "@,
            tools->Err_0@,
            Seq::empty(),
        ),
{
    assert(texts(r@).len() == r@.len());
    if !quiet {
        assert(texts(r@)[0] == r@[0]@);
        if tools is Ok {
            assert(texts(r@).skip(1) =~= server_tool_lines(tools->Ok_0@));
        } else {
            assert(texts(r@)[1] == r@[1]@);
        }
    }
}

/// A server that is not quiet tells its whole address twice; where it is not
/// known, it says so. A quiet one shows nothing. What ends a server is told in
/// full.
pub proof fn server_tells_its_address(
    addr: &Option<String>,
    quiet: bool,
    lines: Vec<String>,
    reason: &str,
    failure: String,
)
    requires
        call_ensures(serving_notice, (addr, quiet), lines),
        call_ensures(server_failure, (reason,), failure),
    ensures
        ({
            let shown = match *addr {
                Some(a) => a@,
                None => "<unknown>"@,
            };
            &&& quiet ==> lines@.len() == 0
            &&& !quiet ==> {
                &&& lines@.len() == 5
                &&& frames(
                    lines@[0]@,
                    "📡 Streamable HTTP service startup: http://"@,
                    shown,
                    Seq::empty(),
                )
                &&& frames(
                    lines@[1]@,
                    "💡 MCP client can be used directly: http://"@,
                    shown,
                    Seq::empty(),
                )
                &&& lines@[2]@ == "✨ Feature: stateful_mode (session management + server push)"@
                &&& lines@[3]@
                    == "🔄 Backend version control: Enable (automatically handles reconnections)"@
                &&& lines@[4]@ == "💡 Press Ctrl+C to stop the service"@
            }
            &&& frames(failure@, "服务器错误: "@, reason@, Seq::empty())
        }),
{
    assert(texts(lines@).len() == lines@.len());
    if !quiet {
        assert(texts(lines@)[0] == lines@[0]@);
        assert(texts(lines@)[1] == lines@[1]@);
        assert(texts(lines@)[2] == lines@[2]@);
        assert(texts(lines@)[3] == lines@[3]@);
        assert(texts(lines@)[4] == lines@[4]@);
    }
}

} // verus!
