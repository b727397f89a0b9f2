//! A client on the command line for a service that is a child process.

use vstd::prelude::*;

use crate::launch::SpawnPlan;
use crate::shown::{show_list, show_table, shown_list, shown_table};
use crate::sse_client::{print_sse_tools, tool_report};
use crate::text::{concat2, concat3, frames, texts};
use crate::tools::{client_tool_lines, ShownTool, ToolFilter};

verus! {

/// The lines before the child process is started.
pub open spec fn banner(name: Seq<char>, plan: SpawnPlan, filter: ToolFilter) -> Seq<Seq<char>> {
    let command = seq![
        "🚀 MCP-Stdio-Proxy: "@ + name + " (command) → stdio"@,
        "   Command: "@ + plan.command@ + " "@ + shown_list(plan.args@),
    ];
    let env = if plan.env.entries().len() > 0 {
        seq!["   Env vars: "@ + shown_table(plan.env.entries())]
    } else {
        Seq::empty()
    };
    let tools = if filter.enabled() {
        seq!["🔧 Tool filtering enabled"@]
    } else {
        Seq::empty()
    };
    command + env + tools
}

/// The lines before the child process is started. A quiet client shows none.
pub fn command_banner(
    name: &str,
    plan: &SpawnPlan,
    filter: &ToolFilter,
    quiet: bool,
) -> (r: Vec<String>)
    ensures
        texts(r@) == (if quiet {
            Seq::<Seq<char>>::empty()
        } else {
            banner(name@, *plan, *filter)
        }),
{
    let mut r: Vec<String> = Vec::new();
    if quiet {
        assert(texts(r@) =~= Seq::<Seq<char>>::empty());
        return r;
    }
    r.push(concat3("🚀 MCP-Stdio-Proxy: ", name, " (command) → stdio"));
    let mut command: String = "   Command: ".to_owned();
    command.append(plan.command.as_str());
    command.append(" ");
    command.append(show_list(&plan.args).as_str());
    r.push(command);
    if !plan.env.is_empty() {
        r.push(concat2("   Env vars: ", show_table(&plan.env).as_str()));
    }
    if filter.is_enabled() {
        r.push("🔧 Tool filtering enabled".to_owned());
    }
    assert(texts(r@) =~= banner(name@, *plan, *filter));
    r
}

/// The lines once the child process is connected. Where its tools could not be
/// listed, the reason is shown.
pub fn started_lines(tools: &Result<Vec<ShownTool>, String>) -> (r: Vec<String>)
    ensures
        texts(r@) == seq!["✅ Child process started, proxying to stdio..."@] + tool_report(
            *tools,
        ) + seq!["💡 You can now send JSON-RPC requests through stdin"@],
{
    let mut r: Vec<String> = Vec::new();
    r.push("✅ Child process started, proxying to stdio...".to_owned());
    let mut lines: Vec<String> = print_sse_tools(tools);
    let ghost more = texts(lines@);
    r.append(&mut lines);
    r.push("💡 You can now send JSON-RPC requests through stdin".to_owned());
    assert(texts(r@) =~= seq!["✅ Child process started, proxying to stdio..."@] + more + seq![
        "💡 You can now send JSON-RPC requests through stdin"@,
    ]);
    r
}

/// A client that is not quiet shows the whole name and the whole command of its
/// service with all its arguments, the variables where there are any, and whether
/// tools are filtered. A quiet one shows nothing.
pub proof fn banner_shows_the_whole_command(
    name: &str,
    plan: &SpawnPlan,
    filter: &ToolFilter,
    quiet: bool,
    r: Vec<String>,
)
    requires
        call_ensures(command_banner, (name, plan, filter, quiet), r),
    ensures
        ({
            let with_env = plan.env.entries().len() > 0;
            let filtered = filter.allow_tools is Some || filter.deny_tools is Some;
            &&& quiet ==> r@.len() == 0
            &&& !quiet ==> {
                &&& r@.len() == 2 + if with_env {
                    1int
                } else {
                    0int
                } + if filtered {
                    1int
                } else {
                    0int
                }
                &&& frames(r@[0]@, "🚀 MCP-Stdio-Proxy: "@, name@, " (command) → stdio"@)
                &&& frames(r@[1]@, "   Command: "@, plan.command@, " "@ + shown_list(plan.args@))
                &&& with_env ==> frames(
                    r@[2]@,
                    "   Env vars: "@,
                    shown_table(plan.env.entries()),
                    Seq::empty(),
                )
                &&& filtered ==> r@.last()@ == "🔧 Tool filtering enabled"@
            }
        }),
{
    let lines = texts(r@);
    assert(lines.len() == r@.len());
    if !quiet {
        assert(lines[0] == r@[0]@);
        assert(lines[1] == r@[1]@);
        assert(plan.env.entries().len() > 0 ==> lines[2] == r@[2]@);
        assert(lines[lines.len() - 1] == r@[r@.len() - 1]@);
    }
}

/// Once the child process runs, that is shown first, then the tools or the reason
/// why they could not be listed, and last what the user can do.
pub proof fn tools_are_shown_once_the_child_runs(
    tools: &Result<Vec<ShownTool>, String>,
    r: Vec<String>,
)
    requires
        call_ensures(started_lines, (tools,), r),
    ensures
        r@.len() >= 2,
        r@[0]@ == "✅ Child process started, proxying to stdio..."@,
        r@.last()@ == "💡 You can now send JSON-RPC requests through stdin"@,
        tools is Ok ==> texts(r@).subrange(1, r@.len() - 1) == client_tool_lines(tools->Ok_0@),
        tools is Err ==> r@.len() == 3 && frames(
            r@[1]@,
            "⚠️  Failed to list tools: "@,
            tools->Err_0@,
            Seq::empty(),
        ),
{
    let lines = texts(r@);
    assert(lines.len() == r@.len());
    assert(lines[0] == r@[0]@);
    assert(lines[lines.len() - 1] == r@[r@.len() - 1]@);
    if tools is Ok {
        assert(lines.subrange(1, r@.len() - 1) =~= client_tool_lines(tools->Ok_0@));
    } else {
        assert(lines[1] == r@[1]@);
    }
}

} // verus!
