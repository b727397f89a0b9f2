//! Tools: which may be used, and how they are listed for a user.

use vstd::prelude::*;

use crate::launch::{copy_list, texts_or_none};
use crate::text::{
    can_shorten, concat3, decimal, frames, listed, number_text, shorten, shortened, texts,
};

verus! {

/// Which tools may be used. Where there is a list of allowed tools, only those
/// may; where there is a list of denied tools, those may not.
#[derive(Debug)]
pub struct ToolFilter {
    pub allow_tools: Option<Vec<String>>,
    pub deny_tools: Option<Vec<String>>,
}

impl ToolFilter {
    /// There is something to filter by.
    pub open spec fn enabled(self) -> bool {
        self.allow_tools is Some || self.deny_tools is Some
    }

    /// A tool may be used.
    pub open spec fn allows(self, name: Seq<char>) -> bool {
        &&& self.allow_tools is Some ==> texts(self.allow_tools->0@).contains(name)
        &&& self.deny_tools is Some ==> !texts(self.deny_tools->0@).contains(name)
    }

    /// A filter by the same lists.
    pub open spec fn same_as(self, other: ToolFilter) -> bool {
        &&& self.allow_tools is Some == other.allow_tools is Some
        &&& texts_or_none(self.allow_tools) == texts_or_none(other.allow_tools)
        &&& self.deny_tools is Some == other.deny_tools is Some
        &&& texts_or_none(self.deny_tools) == texts_or_none(other.deny_tools)
    }

    /// Whether there is something to filter by.
    pub fn is_enabled(&self) -> (r: bool)
        ensures
            r == self.enabled(),
    {
        self.allow_tools.is_some() || self.deny_tools.is_some()
    }

    /// Whether a tool may be used.
    pub fn is_allowed(&self, name: &str) -> (r: bool)
        ensures
            r == self.allows(name@),
    {
        if let Some(allowed) = &self.allow_tools {
            if !listed(allowed, name) {
                return false;
            }
        }
        match &self.deny_tools {
            Some(denied) => !listed(denied, name),
            None => true,
        }
    }
}

impl Default for ToolFilter {
    /// Every tool may be used.
    fn default() -> (r: Self)
        ensures
            r.allow_tools is None,
            r.deny_tools is None,
    {
        ToolFilter { allow_tools: None, deny_tools: None }
    }
}

impl Clone for ToolFilter {
    fn clone(&self) -> (r: Self)
        ensures
            r.same_as(*self),
    {
        ToolFilter {
            allow_tools: copy_list(&self.allow_tools),
            deny_tools: copy_list(&self.deny_tools),
        }
    }
}

/// A filter that is not enabled allows every tool.
pub proof fn disabled_filter_allows_everything(filter: ToolFilter, name: Seq<char>)
    requires
        !filter.enabled(),
    ensures
        filter.allows(name),
{
}

/// A denied tool may not be used, whatever else is allowed.
pub proof fn denied_tool_is_never_allowed(filter: ToolFilter, name: Seq<char>)
    requires
        filter.deny_tools is Some,
        texts(filter.deny_tools->0@).contains(name),
    ensures
        !filter.allows(name),
{
}

/// A tool of a backend, with what else the backend says of it.
#[derive(Clone, Debug)]
pub struct ToolEntry<T> {
    pub name: String,
    pub details: T,
}

/// A page of the list of tools of a backend.
#[derive(Clone, Debug)]
pub struct ToolPage<T> {
    pub tools: Vec<ToolEntry<T>>,
    pub next_cursor: Option<String>,
}

/// The tools that a filter lets through, in their order.
pub open spec fn visible_tools<T>(filter: ToolFilter, tools: Seq<ToolEntry<T>>) -> Seq<
    ToolEntry<T>,
> {
    tools.filter(|tool: ToolEntry<T>| filter.allows(tool.name@))
}

/// The page with the tools that a filter lets through, in their order.
pub fn filter_tools<T>(filter: &ToolFilter, page: ToolPage<T>) -> (r: ToolPage<T>)
    ensures
        r.tools@ == visible_tools(*filter, page.tools@),
        r.next_cursor == page.next_cursor,
{
    let ToolPage { tools, next_cursor } = page;
    let ghost keep = |tool: ToolEntry<T>| filter.allows(tool.name@);
    if !filter.is_enabled() {
        proof {
            lemma_keep_all(tools@, keep);
        }
        return ToolPage { tools, next_cursor };
    }
    let ghost all = tools@;
    let mut kept: Vec<ToolEntry<T>> = Vec::new();
    proof {
        reveal(Seq::filter);
    }
    assert(all.take(0).filter(keep) =~= Seq::empty());
    for tool in it: tools
        invariant
            it.seq() == all,
            keep == |tool: ToolEntry<T>| filter.allows(tool.name@),
            kept@ == all.take(it.index() as int).filter(keep),
    {
        proof {
            let n = it.index() as int;
            reveal(Seq::filter);
            assert(all.take(n + 1).drop_last() =~= all.take(n));
        }
        if filter.is_allowed(tool.name.as_str()) {
            kept.push(tool);
        }
    }
    assert(all.take(all.len() as int) =~= all);
    ToolPage { tools: kept, next_cursor }
}

proof fn lemma_keep_all<T>(tools: Seq<ToolEntry<T>>, keep: spec_fn(ToolEntry<T>) -> bool)
    requires
        forall|tool: ToolEntry<T>| #[trigger] keep(tool),
    ensures
        tools.filter(keep) == tools,
    decreases tools.len(),
{
    reveal(Seq::filter);
    if tools.len() > 0 {
        lemma_keep_all(tools.drop_last(), keep);
        assert(keep(tools.last()));
        assert(tools.drop_last().push(tools.last()) =~= tools);
    }
}

/// Only tools that may be used are listed, and every one of them is.
pub proof fn only_allowed_tools_are_visible<T>(
    filter: ToolFilter,
    tools: Seq<ToolEntry<T>>,
    tool: ToolEntry<T>,
)
    ensures
        visible_tools(filter, tools).contains(tool) <==> tools.contains(tool) && filter.allows(
            tool.name@,
        ),
    decreases tools.len(),
{
    reveal(Seq::filter);
    let visible = visible_tools(filter, tools);
    if tools.len() > 0 {
        let shorter = tools.drop_last();
        only_allowed_tools_are_visible(filter, shorter, tool);
        let last = tools.last();
        assert(tools =~= shorter.push(last));
        if visible_tools(filter, shorter).contains(tool) {
            let i = visible_tools(filter, shorter).index_of(tool);
            assert(visible[i] == tool);
        }
        if visible.contains(tool) {
            let i = visible.index_of(tool);
            if i < visible_tools(filter, shorter).len() {
                assert(visible_tools(filter, shorter)[i] == tool);
            } else {
                assert(tools[tools.len() - 1] == tool);
            }
        }
        if tools.contains(tool) {
            let i = tools.index_of(tool);
            if i < shorter.len() {
                assert(shorter[i] == tool);
            } else if filter.allows(tool.name@) {
                assert(visible[visible.len() - 1] == tool);
            }
        }
        if shorter.contains(tool) {
            let i = shorter.index_of(tool);
            assert(tools[i] == tool);
        }
    }
}

/// A filter that is not enabled leaves the list as it is.
pub proof fn disabled_filter_keeps_the_list<T>(filter: ToolFilter, tools: Seq<ToolEntry<T>>)
    requires
        !filter.enabled(),
    ensures
        visible_tools(filter, tools) == tools,
{
    lemma_keep_all(tools, |tool: ToolEntry<T>| filter.allows(tool.name@));
}

/// A tool as it is listed for a user.
#[derive(Clone, Debug)]
pub struct ToolInfo {
    /// The name of the tool.
    pub name: String,
    /// What the tool does.
    pub description: Option<String>,
}

/// The tools of a backend as they are listed, in their order.
pub open spec fn listed_tools(tools: Seq<(String, Option<String>)>) -> Seq<ToolInfo> {
    tools.map_values(
        |tool: (String, Option<String>)| (ToolInfo { name: tool.0, description: tool.1 }),
    )
}

/// The tools of a backend as they are listed, in their order, where `tools` are
/// their names and what they do.
pub fn tool_infos(tools: Vec<(String, Option<String>)>) -> (r: Vec<ToolInfo>)
    ensures
        r@ == listed_tools(tools@),
{
    let ghost all = tools@;
    let mut r: Vec<ToolInfo> = Vec::new();
    assert(listed_tools(all.take(0)) =~= Seq::empty());
    for tool in it: tools
        invariant
            it.seq() == all,
            r@ == listed_tools(all.take(it.index() as int)),
    {
        proof {
            let n = it.index() as int;
            assert(listed_tools(all.take(n + 1)) =~= listed_tools(all.take(n)).push(
                (ToolInfo { name: all[n].0, description: all[n].1 }),
            ));
        }
        let (name, description): (String, Option<String>) = tool;
        r.push(ToolInfo { name, description });
    }
    assert(all.take(all.len() as int) =~= all);
    r
}

/// How many tools a server lists when it starts.
pub const SERVER_TOOL_LIMIT: usize = 10;

/// How many bytes of a description a server shows.
pub const SERVER_DESCRIPTION_LIMIT: usize = 50;

/// To what length a client shortens a description.
pub const CLIENT_DESCRIPTION_LIMIT: usize = 50;

impl ToolInfo {
    /// The line for a tool when a server starts.
    pub open spec fn server_line(self) -> Seq<char> {
        "   - "@ + self.name@ + " : "@ + match self.description {
            Some(d) => shortened(d@, SERVER_DESCRIPTION_LIMIT as int),
            None => "无描述"@,
        }
    }

    /// What a client says of a tool, before it is shortened.
    pub open spec fn client_description(self) -> Seq<char> {
        match self.description {
            Some(d) => d@,
            None => "no description"@,
        }
    }
}

/// A tool as a client shows it.
#[derive(Clone, Debug)]
pub struct ShownTool {
    /// The name of the tool.
    pub name: String,
    /// What the tool does, as short as it is to be shown.
    pub description: String,
}

impl ShownTool {
    /// The line for a tool on the command line.
    pub open spec fn line(self) -> Seq<char> {
        "   - "@ + self.name@ + " : "@ + self.description@
    }
}

/// The tools of a backend as a client shows them, with descriptions that are yet
/// to be shortened. A tool without a description is said to have none.
pub fn shown_tools(tools: Vec<ToolInfo>) -> (r: Vec<ShownTool>)
    ensures
        r@.len() == tools@.len(),
        forall|i: int|
            0 <= i < tools@.len() ==> (#[trigger] r@[i]).name == tools@[i].name
                && r@[i].description@ == tools@[i].client_description(),
{
    let ghost all = tools@;
    let mut r: Vec<ShownTool> = Vec::new();
    for tool in it: tools
        invariant
            it.seq() == all,
            r@.len() == it.index(),
            forall|i: int|
                0 <= i < r@.len() ==> (#[trigger] r@[i]).name == all[i].name
                    && r@[i].description@ == all[i].client_description(),
    {
        let ToolInfo { name, description } = tool;
        let description: String = match description {
            Some(d) => d,
            None => "no description".to_owned(),
        };
        r.push(ShownTool { name, description });
    }
    r
}

/// The line above a list of tools.
pub open spec fn tools_heading(n: nat) -> Seq<char> {
    "🔧 Available tools ("@ + decimal(n) + "):"@
}

/// The lines by which a server lists its tools when it starts: the first few,
/// and how many more there are.
pub open spec fn server_tool_lines(tools: Seq<ToolInfo>) -> Seq<Seq<char>> {
    let n = tools.len();
    let limit = SERVER_TOOL_LIMIT as int;
    if n == 0 {
        seq!["⚠️Tool list is empty"@]
    } else if n <= limit {
        seq![tools_heading(n)] + tools.map_values(|t: ToolInfo| t.server_line())
    } else {
        (seq![tools_heading(n)] + tools.take(limit).map_values(
            |t: ToolInfo| t.server_line(),
        )).push("... and "@ + decimal((n - limit) as nat) + " other tools"@)
    }
}

/// The lines by which the tools of a backend are listed on the command line.
pub open spec fn client_tool_lines(tools: Seq<ShownTool>) -> Seq<Seq<char>> {
    if tools.len() == 0 {
        seq!["⚠️  Tool list is empty (tools/list returned 0 tools)"@]
    } else {
        seq![tools_heading(tools.len())] + tools.map_values(|t: ShownTool| t.line())
    }
}

fn heading(n: usize) -> (r: String)
    ensures
        r@ == tools_heading(n as nat),
{
    concat3("🔧 Available tools (", number_text(n as u64).as_str(), "):")
}

fn tool_line(name: &str, description: &str) -> (r: String)
    ensures
        r@ == "   - "@ + name@ + " : "@ + description@,
{
    let mut r: String = concat3("   - ", name, " : ");
    r.append(description);
    r
}

/// The lines by which a server lists its tools when it starts.
pub fn list_server_tools(tools: &Vec<ToolInfo>) -> (r: Vec<String>)
    requires
        forall|i: int|
            0 <= i < tools@.len() && i < SERVER_TOOL_LIMIT && (
            #[trigger] tools@[i]).description is Some ==> can_shorten(
                tools@[i].description->0@,
                SERVER_DESCRIPTION_LIMIT as int,
            ),
    ensures
        texts(r@) == server_tool_lines(tools@),
{
    let mut r: Vec<String> = Vec::new();
    let n: usize = tools.len();
    if n == 0 {
        r.push("⚠️Tool list is empty".to_owned());
        assert(texts(r@) =~= server_tool_lines(tools@));
        return r;
    }
    r.push(heading(n));
    let shown: usize = if n <= SERVER_TOOL_LIMIT {
        n
    } else {
        SERVER_TOOL_LIMIT
    };
    let ghost f = |t: ToolInfo| t.server_line();
    let mut i: usize = 0;
    assert(texts(r@) =~= seq![tools_heading(n as nat)] + tools@.take(0).map_values(f));
    while i < shown
        invariant
            i <= shown <= SERVER_TOOL_LIMIT,
            shown <= n,
            n == tools@.len(),
            f == |t: ToolInfo| t.server_line(),
            texts(r@) == seq![tools_heading(n as nat)] + tools@.take(i as int).map_values(f),
            forall|i: int|
                0 <= i < tools@.len() && i < SERVER_TOOL_LIMIT && (
                #[trigger] tools@[i]).description is Some ==> can_shorten(
                    tools@[i].description->0@,
                    SERVER_DESCRIPTION_LIMIT as int,
                ),
        decreases shown - i,
    {
        let tool: &ToolInfo = &tools[i];
        let ghost before = texts(r@);
        let line: String = match &tool.description {
            Some(d) => tool_line(
                tool.name.as_str(),
                shorten(d.as_str(), SERVER_DESCRIPTION_LIMIT).as_str(),
            ),
            None => tool_line(tool.name.as_str(), "无描述"),
        };
        r.push(line);
        proof {
            assert(texts(r@) =~= before.push(line@));
            assert(tools@.take(i + 1).map_values(f) =~= tools@.take(i as int).map_values(f).push(
                tools@[i as int].server_line(),
            ));
        }
        i += 1;
    }
    if n > SERVER_TOOL_LIMIT {
        let ghost before = texts(r@);
        let rest: String = concat3(
            "... and ",
            number_text((n - SERVER_TOOL_LIMIT) as u64).as_str(),
            " other tools",
        );
        r.push(rest);
        assert(texts(r@) =~= before.push(rest@));
    } else {
        assert(tools@.take(n as int) =~= tools@);
    }
    r
}

/// The lines by which the tools of a backend are listed on the command line.
pub fn list_client_tools(tools: &Vec<ShownTool>) -> (r: Vec<String>)
    ensures
        texts(r@) == client_tool_lines(tools@),
{
    let mut r: Vec<String> = Vec::new();
    let n: usize = tools.len();
    if n == 0 {
        r.push("⚠️  Tool list is empty (tools/list returned 0 tools)".to_owned());
        assert(texts(r@) =~= client_tool_lines(tools@));
        return r;
    }
    r.push(heading(n));
    let ghost f = |t: ShownTool| t.line();
    let mut i: usize = 0;
    assert(texts(r@) =~= seq![tools_heading(n as nat)] + tools@.take(0).map_values(f));
    while i < n
        invariant
            i <= n,
            n == tools@.len(),
            f == |t: ShownTool| t.line(),
            texts(r@) == seq![tools_heading(n as nat)] + tools@.take(i as int).map_values(f),
        decreases n - i,
    {
        let tool: &ShownTool = &tools[i];
        let ghost before = texts(r@);
        let line: String = tool_line(tool.name.as_str(), tool.description.as_str());
        r.push(line);
        proof {
            assert(texts(r@) =~= before.push(line@));
            assert(tools@.take(i + 1).map_values(f) =~= tools@.take(i as int).map_values(f).push(
                tools@[i as int].line(),
            ));
        }
        i += 1;
    }
    assert(tools@.take(n as int) =~= tools@);
    r
}

/// A tool is on a list.
pub open spec fn is_on_the_list(list: Option<Vec<String>>, name: Seq<char>) -> bool {
    list is Some && exists|i: int| 0 <= i < list->0@.len() && (#[trigger] list->0@[i])@ == name
}

/// Where there is a list of allowed tools, of whatever length, a tool that is not
/// on it may not be used. Nor may one that is on the list of denied tools. Every
/// other tool may be used.
pub proof fn lists_decide_which_tools_may_be_used(filter: ToolFilter, name: Seq<char>)
    ensures
        filter.allow_tools is Some && !is_on_the_list(filter.allow_tools, name) ==> !filter.allows(
            name,
        ),
        is_on_the_list(filter.deny_tools, name) ==> !filter.allows(name),
        (filter.allow_tools is None || is_on_the_list(filter.allow_tools, name))
            && !is_on_the_list(filter.deny_tools, name) ==> filter.allows(name),
        filter.enabled() <==> filter.allow_tools is Some || filter.deny_tools is Some,
{
    if filter.allow_tools is Some {
        lemma_on_the_list(filter.allow_tools->0, name);
    }
    if filter.deny_tools is Some {
        lemma_on_the_list(filter.deny_tools->0, name);
    }
}

proof fn lemma_on_the_list(list: Vec<String>, name: Seq<char>)
    ensures
        texts(list@).contains(name) <==> is_on_the_list(Some(list), name),
{
    let some = Some(list);
    if texts(list@).contains(name) {
        let i = choose|i: int| 0 <= i < texts(list@).len() && texts(list@)[i] == name;
        assert(some->0@[i]@ == name);
    }
    if is_on_the_list(some, name) {
        let i = choose|i: int| 0 <= i < some->0@.len() && (#[trigger] some->0@[i])@ == name;
        assert(texts(list@)[i] == name);
    }
}

/// A filter by the same lists lets the same tools through.
pub proof fn same_filters_let_the_same_through(a: ToolFilter, b: ToolFilter, name: Seq<char>)
    requires
        a.same_as(b),
    ensures
        a.allow_tools is Some == b.allow_tools is Some,
        a.deny_tools is Some == b.deny_tools is Some,
        is_on_the_list(a.allow_tools, name) == is_on_the_list(b.allow_tools, name),
        is_on_the_list(a.deny_tools, name) == is_on_the_list(b.deny_tools, name),
{
    if a.allow_tools is Some {
        lemma_on_the_list(a.allow_tools->0, name);
        lemma_on_the_list(b.allow_tools->0, name);
    }
    if a.deny_tools is Some {
        lemma_on_the_list(a.deny_tools->0, name);
        lemma_on_the_list(b.deny_tools->0, name);
    }
}

/// A list is filtered tool by tool: each tool that may be used stays, whole and
/// in its place, as often as it occurs, and no other does.
pub proof fn lists_are_filtered_tool_by_tool<T>(
    filter: ToolFilter,
    first: Seq<ToolEntry<T>>,
    second: Seq<ToolEntry<T>>,
    tool: ToolEntry<T>,
)
    ensures
        visible_tools(filter, Seq::<ToolEntry<T>>::empty()).len() == 0,
        filter.allows(tool.name@) ==> visible_tools(filter, seq![tool]) == seq![tool],
        !filter.allows(tool.name@) ==> visible_tools(filter, seq![tool]).len() == 0,
        visible_tools(filter, first + second) == visible_tools(filter, first) + visible_tools(
            filter,
            second,
        ),
    decreases second.len(),
{
    reveal(Seq::filter);
    let keep = |t: ToolEntry<T>| filter.allows(t.name@);
    assert(seq![tool].drop_last() =~= Seq::<ToolEntry<T>>::empty());
    assert(Seq::<ToolEntry<T>>::empty().filter(keep).len() == 0);
    if filter.allows(tool.name@) {
        assert(visible_tools(filter, seq![tool]) =~= seq![tool]);
    }
    if second.len() > 0 {
        let shorter = second.drop_last();
        lists_are_filtered_tool_by_tool(filter, first, shorter, tool);
        assert((first + second).drop_last() =~= first + shorter);
        assert((first + second).last() == second.last());
        assert(visible_tools(filter, first + second) =~= visible_tools(filter, first)
            + visible_tools(filter, second));
    } else {
        assert(first + second =~= first);
        assert(visible_tools(filter, second) =~= Seq::empty());
        assert(visible_tools(filter, first) + visible_tools(filter, second) =~= visible_tools(
            filter,
            first,
        ));
    }
}

/// The tools of a backend are listed one for one, in their order, each with its
/// name and what it does.
pub proof fn every_tool_is_listed(tools: Seq<(String, Option<String>)>)
    ensures
        listed_tools(tools).len() == tools.len(),
        forall|i: int|
            0 <= i < tools.len() ==> (#[trigger] listed_tools(tools)[i]).name == tools[i].0
                && listed_tools(tools)[i].description == tools[i].1,
{
}

/// The line for a tool shows its whole name. A server shows a short description
/// whole, and a client shows the description that it is given.
pub proof fn lines_show_the_whole_name(tool: ToolInfo, shown: ShownTool)
    ensures
        tool.description is None ==> frames(
            tool.server_line(),
            "   - "@,
            tool.name@,
            " : 无描述"@,
        ),
        tool.description is Some ==> frames(
            tool.server_line(),
            "   - "@,
            tool.name@,
            " : "@ + shortened(tool.description->0@, 50),
        ),
        frames(shown.line(), "   - "@, shown.name@, " : "@ + shown.description@),
        tool.description is Some ==> tool.client_description() == tool.description->0@,
        tool.description is None ==> tool.client_description() == "no description"@,
{
    reveal_strlit(" : 无描述");
    reveal_strlit(" : ");
    reveal_strlit("无描述");
    assert(" : 无描述"@ =~= " : "@ + "无描述"@);
}

/// A server that starts lists each of its first ten tools on a line of its own,
/// below a line with their number, and says how many more there are.
pub proof fn server_lists_ten_tools(tools: Seq<ToolInfo>)
    ensures
        ({
            let lines = server_tool_lines(tools);
            let n = tools.len();
            &&& n == 0 ==> lines.len() == 1
            &&& 0 < n <= 10 ==> lines.len() == n + 1
            &&& n > 10 ==> lines.len() == 12 && frames(
                lines[11],
                "... and "@,
                decimal((n - 10) as nat),
                " other tools"@,
            )
            &&& n > 0 ==> frames(lines[0], "🔧 Available tools ("@, decimal(n), "):"@)
            &&& forall|i: int|
                0 <= i < n && i < 10 ==> #[trigger] lines[i + 1] == tools[i].server_line()
        }),
{
}

/// A client lists all tools, each on a line of its own, below a line with their
/// number.
pub proof fn client_lists_every_tool(tools: Seq<ShownTool>)
    ensures
        ({
            let lines = client_tool_lines(tools);
            let n = tools.len();
            &&& n == 0 ==> lines == seq!["⚠️  Tool list is empty (tools/list returned 0 tools)"@]
            &&& n > 0 ==> lines.len() == n + 1 && frames(
                lines[0],
                "🔧 Available tools ("@,
                decimal(n),
                "):"@,
            )
            &&& forall|i: int| 0 <= i < n ==> #[trigger] lines[i + 1] == tools[i].line()
        }),
{
}

/// A tool may be used exactly where the list of allowed tools, if there is one,
/// has it, and the list of denied tools, if there is one, does not.
pub proof fn tool_is_allowed_by_the_lists(filter: &ToolFilter, name: &str, r: bool)
    requires
        call_ensures(ToolFilter::is_allowed, (filter, name), r),
    ensures
        r <==> (filter.allow_tools is None || is_on_the_list(filter.allow_tools, name@))
            && !is_on_the_list(filter.deny_tools, name@),
{
    lists_decide_which_tools_may_be_used(*filter, name@);
}

/// A page that was filtered has the cursor of the page, all its tools that may be
/// used, and no others.
pub proof fn filtered_page_has_the_usable_tools<T>(
    filter: &ToolFilter,
    page: ToolPage<T>,
    r: ToolPage<T>,
    tool: ToolEntry<T>,
)
    requires
        call_ensures(filter_tools::<T>, (filter, page), r),
    ensures
        r.next_cursor == page.next_cursor,
        r.tools@.contains(tool) <==> page.tools@.contains(tool) && (filter.allow_tools is None
            || is_on_the_list(filter.allow_tools, tool.name@)) && !is_on_the_list(
            filter.deny_tools,
            tool.name@,
        ),
        !filter.enabled() ==> r.tools@ == page.tools@,
{
    only_allowed_tools_are_visible(*filter, page.tools@, tool);
    lists_decide_which_tools_may_be_used(*filter, tool.name@);
    if !filter.enabled() {
        disabled_filter_keeps_the_list(*filter, page.tools@);
    }
}

/// A client shows every tool under its name, with what it does where that is
/// known.
pub proof fn client_shows_every_tool(tools: Vec<ToolInfo>, r: Vec<ShownTool>, i: int)
    requires
        call_ensures(shown_tools, (tools,), r),
    ensures
        r@.len() == tools@.len(),
        0 <= i < tools@.len() ==> {
            &&& r@[i].name@ == tools@[i].name@
            &&& tools@[i].description is Some ==> r@[i].description@ == tools@[i].description->0@
            &&& tools@[i].description is None ==> r@[i].description@ == "no description"@
        },
{
}

/// The lists that a user sees have a line for each tool, and nothing is left out:
/// a client shows every tool, and a server the first ten.
pub proof fn lists_have_a_line_for_each_tool(
    tools: &Vec<ToolInfo>,
    server: Vec<String>,
    shown: &Vec<ShownTool>,
    client: Vec<String>,
    i: int,
)
    requires
        call_ensures(list_server_tools, (tools,), server),
        call_ensures(list_client_tools, (shown,), client),
    ensures
        shown@.len() > 0 ==> client@.len() == shown@.len() + 1,
        0 <= i < shown@.len() ==> frames(
            client@[i + 1]@,
            "   - "@,
            shown@[i].name@,
            " : "@ + shown@[i].description@,
        ),
        0 < tools@.len() <= 10 ==> server@.len() == tools@.len() + 1,
        tools@.len() > 10 ==> server@.len() == 12,
        0 <= i < tools@.len() && i < 10 ==> server@[i + 1]@ == tools@[i].server_line(),
{
    server_lists_ten_tools(tools@);
    client_lists_every_tool(shown@);
    assert(texts(server@).len() == server@.len());
    assert(texts(client@).len() == client@.len());
    if 0 <= i < shown@.len() {
        assert(client_tool_lines(shown@)[i + 1] == shown@[i].line());
        assert(texts(client@)[i + 1] == client@[i + 1]@);
    }
    if 0 <= i < tools@.len() && i < 10 {
        assert(server_tool_lines(tools@)[i + 1] == tools@[i].server_line());
        assert(texts(server@)[i + 1] == server@[i + 1]@);
    }
}

/// The tools of a backend are listed with their names and what they do.
pub proof fn tool_infos_keep_names_and_descriptions(
    tools: Vec<(String, Option<String>)>,
    r: Vec<ToolInfo>,
    i: int,
)
    requires
        call_ensures(tool_infos, (tools,), r),
    ensures
        r@.len() == tools@.len(),
        0 <= i < tools@.len() ==> r@[i].name == tools@[i].0 && r@[i].description == tools@[i].1,
{
}

} // verus!
