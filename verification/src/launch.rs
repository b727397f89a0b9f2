//! Child processes: how they are started, and what is reported of it.

use vstd::prelude::*;

use crate::table::{distinct_keys, entries_or_none, Table};
use crate::text::{frames, join, joined, texts};

verus! {

/// How a child process is started. It has the environment of its parent, with
/// the variables of the plan over it.
pub struct SpawnPlan {
    pub command: String,
    pub args: Vec<String>,
    pub env: Table<String>,
}

/// The texts of an optional list.
pub open spec fn texts_or_none(list: Option<Vec<String>>) -> Seq<Seq<char>> {
    match list {
        Some(l) => texts(l@),
        None => Seq::empty(),
    }
}

impl SpawnPlan {
    /// The plan starts this command with these arguments and variables.
    pub open spec fn is_for(
        self,
        command: Seq<char>,
        args: Option<Vec<String>>,
        env: Option<Table<String>>,
    ) -> bool {
        &&& self.command@ == command
        &&& texts(self.args@) == texts_or_none(args)
        &&& self.env.entries() == entries_or_none(env)
    }
}

/// A list with the same texts.
pub fn copy_texts(list: &Vec<String>) -> (r: Vec<String>)
    ensures
        texts(r@) == texts(list@),
{
    let mut r: Vec<String> = Vec::new();
    let mut i: usize = 0;
    while i < list.len()
        invariant
            i <= list.len(),
            texts(r@) == texts(list@.take(i as int)),
        decreases list.len() - i,
    {
        let ghost before = texts(r@);
        r.push(list[i].clone());
        proof {
            assert(texts(r@) =~= before.push(list@[i as int]@));
            assert(texts(list@.take(i + 1)) =~= texts(list@.take(i as int)).push(
                list@[i as int]@,
            ));
        }
        i += 1;
    }
    assert(list@.take(i as int) =~= list@);
    r
}

/// A list with the same texts, where there is one.
pub fn copy_list(l: &Option<Vec<String>>) -> (r: Option<Vec<String>>)
    ensures
        r is Some == l is Some,
        texts_or_none(r) == texts_or_none(*l),
{
    match l {
        Some(list) => Some(copy_texts(list)),
        None => None,
    }
}

/// How a child process is started.
pub fn spawn_plan(
    command: &str,
    args: &Option<Vec<String>>,
    env: &Option<Table<String>>,
) -> (r: SpawnPlan)
    ensures
        r.is_for(command@, *args, *env),
{
    let args: Vec<String> = match args {
        Some(list) => copy_texts(list),
        None => {
            assert(texts(Seq::<String>::empty()) =~= Seq::empty());
            Vec::new()
        },
    };
    let env: Table<String> = match env {
        Some(table) => table.clone(),
        None => Table::new(),
    };
    SpawnPlan { command: command.to_owned(), args, env }
}

/// A service that is a child process.
#[derive(Clone, Debug)]
pub struct McpServerCommandConfig {
    pub command: String,
    pub args: Option<Vec<String>>,
    pub env: Option<Table<String>>,
}

/// What is reported before a command is started.
#[derive(Clone, Debug)]
pub struct CommandDetails {
    pub command_line: String,
    /// The names of the variables that are set, where there are any. Their
    /// values may be secret.
    pub env_keys: Option<Vec<String>>,
}

/// The names of the variables of a table.
pub open spec fn keys_of(entries: Seq<(Seq<char>, Seq<char>)>) -> Seq<Seq<char>> {
    entries.map_values(|e: (Seq<char>, Seq<char>)| e.0)
}

/// The line on a command that is started.
pub open spec fn command_line_text(config: McpServerCommandConfig) -> Seq<char> {
    "Executing command: "@ + config.command@ + " "@ + joined(texts_or_none(config.args), " "@)
}

/// The names of the variables that a command is started with.
pub open spec fn reported_keys(config: McpServerCommandConfig) -> Seq<Seq<char>> {
    keys_of(entries_or_none(config.env))
}

/// What is reported before a command is started: the command with its
/// arguments, and the names of the variables that are set.
pub fn log_command_details(mcp_config: &McpServerCommandConfig) -> (r: CommandDetails)
    ensures
        r.command_line@ == command_line_text(*mcp_config),
        r.env_keys is Some == (reported_keys(*mcp_config).len() > 0),
        r.env_keys is Some ==> texts(r.env_keys->0@) == reported_keys(*mcp_config),
{
    let args_text: String = match &mcp_config.args {
        Some(args) => join(args, " "),
        None => String::new(),
    };
    let mut command_line: String = "Executing command: ".to_owned();
    command_line.append(mcp_config.command.as_str());
    command_line.append(" ");
    command_line.append(args_text.as_str());
    let env_keys: Option<Vec<String>> = match &mcp_config.env {
        Some(env) => if env.is_empty() {
            None
        } else {
            Some(env_names(env))
        },
        None => None,
    };
    CommandDetails { command_line, env_keys }
}

/// What is reported of a command does not give away the values of its
/// variables: for others under the same names it is the same, up to the order of
/// the names.
pub proof fn values_are_not_reported(
    command: String,
    args: Option<Vec<String>>,
    env: Option<Table<String>>,
    other_env: Option<Table<String>>,
)
    requires
        distinct_keys(entries_or_none(env)),
        distinct_keys(entries_or_none(other_env)),
        keys_of(entries_or_none(env)).to_set() == keys_of(entries_or_none(other_env)).to_set(),
    ensures
        ({
            let config = McpServerCommandConfig { command, args, env };
            let other = McpServerCommandConfig { command, args, env: other_env };
            &&& command_line_text(config) == command_line_text(other)
            &&& reported_keys(config).to_multiset() == reported_keys(other).to_multiset()
            &&& reported_keys(config).len() == reported_keys(other).len()
        }),
{
    let names = keys_of(entries_or_none(env));
    let others = keys_of(entries_or_none(other_env));
    lemma_distinct_names(entries_or_none(env));
    lemma_distinct_names(entries_or_none(other_env));
    lemma_same_names(names, others);
    names.to_multiset_ensures();
    others.to_multiset_ensures();
}

proof fn lemma_distinct_names(entries: Seq<(Seq<char>, Seq<char>)>)
    requires
        distinct_keys(entries),
    ensures
        keys_of(entries).no_duplicates(),
{
    let names = keys_of(entries);
    assert forall|i: int, j: int| 0 <= i < names.len() && 0 <= j < names.len() && i != j implies
        names[i] != names[j] by {
        assert(entries[i].0 == names[i] && entries[j].0 == names[j]);
    }
}

/// Lists without duplicates that hold the same names differ in their order
/// alone.
proof fn lemma_same_names(a: Seq<Seq<char>>, b: Seq<Seq<char>>)
    requires
        a.no_duplicates(),
        b.no_duplicates(),
        a.to_set() == b.to_set(),
    ensures
        a.to_multiset() == b.to_multiset(),
{
    a.to_multiset_ensures();
    b.to_multiset_ensures();
    a.lemma_multiset_has_no_duplicates();
    b.lemma_multiset_has_no_duplicates();
    assert forall|name: Seq<char>| a.to_multiset().count(name) == b.to_multiset().count(
        name,
    ) by {
        assert(a.contains(name) == a.to_set().contains(name));
        assert(b.contains(name) == b.to_set().contains(name));
    }
    assert(a.to_multiset() =~= b.to_multiset());
}

fn env_names(env: &Table<String>) -> (r: Vec<String>)
    ensures
        texts(r@) == keys_of(env.entries()),
{
    let ghost entries = env.entries();
    let n: usize = env.len();
    let mut r: Vec<String> = Vec::new();
    let mut i: usize = 0;
    while i < n
        invariant
            i <= n,
            n == entries.len(),
            entries == env.entries(),
            texts(r@) == keys_of(entries.take(i as int)),
        decreases n - i,
    {
        let ghost before = texts(r@);
        r.push(env.key(i).clone());
        proof {
            assert(texts(r@) =~= before.push(entries[i as int].0));
            assert(keys_of(entries.take(i + 1)) =~= keys_of(entries.take(i as int)).push(
                entries[i as int].0,
            ));
        }
        i += 1;
    }
    assert(entries.take(i as int) =~= entries);
    r
}

/// What a proxy tells a backend of itself.
#[derive(Clone, Debug)]
pub struct ClientProfile {
    /// The name and version of the proxy, where they are told.
    pub name: Option<&'static str>,
    pub version: Option<String>,
    /// The protocol version that is asked for, where it is not the usual one.
    pub protocol_version: Option<&'static str>,
    pub experimental: bool,
    pub roots: bool,
    pub roots_list_changed: bool,
    pub sampling: bool,
    pub elicitation: bool,
}

impl ClientProfile {
    /// The capabilities that older servers look for.
    pub open spec fn has_usual_capabilities(self) -> bool {
        self.experimental && self.roots && self.roots_list_changed && self.sampling
    }
}

/// What the command-line client tells a child process of itself.
pub fn create_client_info(version: &str) -> (r: ClientProfile)
    ensures
        r.name is Some && r.name->0@ == "mcp-proxy-cli"@,
        r.version is Some && r.version->0@ == version@,
        r.protocol_version is Some && r.protocol_version->0@ == "2026-07-28"@,
        r.has_usual_capabilities(),
        r.elicitation,
{
    ClientProfile {
        name: Some("mcp-proxy-cli"),
        version: Some(version.to_owned()),
        protocol_version: Some("2026-07-28"),
        experimental: true,
        roots: true,
        roots_list_changed: true,
        sampling: true,
        elicitation: true,
    }
}

/// What a client for streamable HTTP tells a backend of itself.
pub fn create_default_client_info(version: &str) -> (r: ClientProfile)
    ensures
        r.name is Some && r.name->0@ == "mcp-streamable-proxy-client"@,
        r.version is Some && r.version->0@ == version@,
        r.protocol_version is None,
        r.has_usual_capabilities(),
        !r.elicitation,
{
    ClientProfile {
        name: Some("mcp-streamable-proxy-client"),
        version: Some(version.to_owned()),
        protocol_version: None,
        experimental: true,
        roots: true,
        roots_list_changed: true,
        sampling: true,
        elicitation: false,
    }
}

/// What a server for streamable HTTP tells its child process of itself.
pub fn stream_server_client_info(version: &str) -> (r: ClientProfile)
    ensures
        r.name is Some && r.name->0@ == "mcp-streamable-proxy-server"@,
        r.version is Some && r.version->0@ == version@,
        r.protocol_version is None,
        r.has_usual_capabilities(),
        !r.elicitation,
{
    ClientProfile {
        name: Some("mcp-streamable-proxy-server"),
        version: Some(version.to_owned()),
        protocol_version: None,
        experimental: true,
        roots: true,
        roots_list_changed: true,
        sampling: true,
        elicitation: false,
    }
}

/// What a server for server-sent events tells its backend of itself.
pub fn sse_server_client_info() -> (r: ClientProfile)
    ensures
        r.name is None,
        r.version is None,
        r.protocol_version is Some && r.protocol_version->0@ == "2024-11-05"@,
        r.has_usual_capabilities(),
        !r.elicitation,
{
    ClientProfile {
        name: None,
        version: None,
        protocol_version: Some("2024-11-05"),
        experimental: true,
        roots: true,
        roots_list_changed: true,
        sampling: true,
        elicitation: false,
    }
}

/// A child process is started with the whole command, with all its arguments and
/// with all its variables, each as it is configured.
pub proof fn child_gets_what_is_configured(
    plan: SpawnPlan,
    command: Seq<char>,
    args: Option<Vec<String>>,
    env: Option<Table<String>>,
)
    requires
        plan.is_for(command, args, env),
    ensures
        plan.command@ == command,
        args is None ==> plan.args@.len() == 0,
        args is Some ==> plan.args@.len() == args->0@.len() && forall|i: int|
            0 <= i < args->0@.len() ==> (#[trigger] plan.args@[i])@ == args->0@[i]@,
        env is None ==> plan.env.entries().len() == 0,
        env is Some ==> plan.env.entries() == env->0.entries(),
{
    assert(texts(plan.args@).len() == plan.args@.len());
    if args is Some {
        assert(texts(args->0@).len() == args->0@.len());
        assert forall|i: int| 0 <= i < args->0@.len() implies (#[trigger] plan.args@[i])@
            == args->0@[i]@ by {
            assert(texts(plan.args@)[i] == texts(args->0@)[i]);
        }
    }
}

/// What is reported of a command is the whole command with all its arguments, in
/// order, and the name of each variable.
pub proof fn command_is_reported_in_full(config: McpServerCommandConfig)
    ensures
        frames(
            command_line_text(config),
            "Executing command: "@,
            config.command@,
            " "@ + joined(texts_or_none(config.args), " "@),
        ),
        config.args is Some ==> texts_or_none(config.args) == texts(config.args->0@),
        config.args is None ==> texts_or_none(config.args).len() == 0,
        config.env is None ==> reported_keys(config).len() == 0,
        config.env is Some ==> reported_keys(config).len() == config.env->0.entries().len(),
        config.env is Some ==> forall|i: int|
            0 <= i < config.env->0.entries().len() ==> #[trigger] reported_keys(config)[i]
                == config.env->0.entries()[i].0,
{
}

/// Every proxy tells a backend of the capabilities that older servers look for,
/// and its whole version where it tells one. Only the command-line client can be
/// asked for input.
pub proof fn proxies_tell_their_capabilities(
    version: &str,
    cli: ClientProfile,
    client: ClientProfile,
    server: ClientProfile,
    sse: ClientProfile,
)
    requires
        call_ensures(create_client_info, (version,), cli),
        call_ensures(create_default_client_info, (version,), client),
        call_ensures(stream_server_client_info, (version,), server),
        call_ensures(sse_server_client_info, (), sse),
    ensures
        cli.experimental && cli.roots && cli.roots_list_changed && cli.sampling,
        client.experimental && client.roots && client.roots_list_changed && client.sampling,
        server.experimental && server.roots && server.roots_list_changed && server.sampling,
        sse.experimental && sse.roots && sse.roots_list_changed && sse.sampling,
        cli.elicitation && !client.elicitation && !server.elicitation && !sse.elicitation,
        cli.version is Some && cli.version->0@ == version@,
        client.version is Some && client.version->0@ == version@,
        server.version is Some && server.version->0@ == version@,
        sse.version is None && sse.name is None,
        cli.name is Some && cli.name->0@ == "mcp-proxy-cli"@,
        client.name is Some && client.name->0@ == "mcp-streamable-proxy-client"@,
        server.name is Some && server.name->0@ == "mcp-streamable-proxy-server"@,
        cli.protocol_version is Some && cli.protocol_version->0@ == "2026-07-28"@,
        sse.protocol_version is Some && sse.protocol_version->0@ == "2024-11-05"@,
        client.protocol_version is None && server.protocol_version is None,
{
}

/// Before a command is started, the whole command is reported with all its
/// arguments, and the names of its variables where it has any.
pub proof fn names_of_variables_are_reported(config: &McpServerCommandConfig, r: CommandDetails)
    requires
        call_ensures(log_command_details, (config,), r),
    ensures
        frames(
            r.command_line@,
            "Executing command: "@,
            config.command@,
            " "@ + joined(texts_or_none(config.args), " "@),
        ),
        r.env_keys is Some <==> config.env is Some && config.env->0.entries().len() > 0,
        r.env_keys is Some ==> r.env_keys->0@.len() == config.env->0.entries().len() && forall|
            i: int,
        |
            0 <= i < r.env_keys->0@.len() ==> (#[trigger] r.env_keys->0@[i])@
                == config.env->0.entries()[i].0,
{
    command_is_reported_in_full(*config);
    if r.env_keys is Some {
        let names = r.env_keys->0@;
        assert(texts(names).len() == names.len());
        assert forall|i: int| 0 <= i < names.len() implies (#[trigger] names[i])@
            == config.env->0.entries()[i].0 by {
            assert(texts(names)[i] == reported_keys(*config)[i]);
        }
    }
}

} // verus!
