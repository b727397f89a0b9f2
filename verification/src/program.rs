//! The program itself: in which mode it runs, and what it says when it starts.

use vstd::prelude::*;

use crate::text::{concat2, concat3, decimal, frames, number_text, texts};

verus! {

/// A command of the command line, as far as it decides how the program logs.
#[derive(Clone, Copy, Debug, PartialEq, Eq, Structural)]
pub enum CliCommand {
    Convert,
    Proxy,
    Health,
    Other,
}

/// Whether the program runs as a client on the command line; else it is a
/// server.
pub fn is_client(has_command: bool, has_url: bool) -> (r: bool)
    ensures
        r == (has_command || has_url),
{
    has_command || has_url
}

/// What a client logs, where it sets up its log here: a command that converts
/// or proxies sets up its own, and a quiet client has none. By default only
/// errors are logged, so that the output stays clean.
pub fn client_log_level(command: Option<CliCommand>, verbose: bool, quiet: bool) -> (r: Option<
    &'static str,
>)
    ensures
        r is None == (quiet || command == Some(CliCommand::Convert) || command == Some(
            CliCommand::Proxy,
        )),
        r is Some ==> r->0@ == (if verbose {
            "debug"@
        } else if command == Some(CliCommand::Health) {
            "off"@
        } else {
            "error"@
        }),
{
    match command {
        Some(CliCommand::Convert) | Some(CliCommand::Proxy) => None,
        _ => if quiet {
            None
        } else if verbose {
            Some("debug")
        } else {
            match command {
                Some(CliCommand::Health) => Some("off"),
                _ => Some("error"),
            }
        },
    }
}

/// The place of a panic.
#[derive(Clone, Debug)]
pub struct PanicPlace {
    pub file: String,
    pub line: u32,
}

/// The line on a panic.
pub open spec fn panic_text(place: Option<PanicPlace>, message: Option<Seq<char>>) -> Seq<char> {
    "❌ PANIC"@ + (match place {
        Some(p) => " at "@ + p.file@ + ":"@ + decimal(p.line as nat),
        None => Seq::empty(),
    }) + ": "@ + match message {
        Some(m) => m,
        None => "unknown panic"@,
    }
}

/// The line on a panic, where `message` is what it was given, if that is text.
pub fn panic_line(place: &Option<PanicPlace>, message: Option<&str>) -> (r: String)
    ensures
        r@ == panic_text(
            *place,
            match message {
                Some(m) => Some(m@),
                None => None,
            },
        ),
{
    let mut at: String = String::new();
    if let Some(p) = place {
        at.append(" at ");
        at.append(p.file.as_str());
        at.append(":");
        at.append(number_text(p.line as u64).as_str());
        assert(at@ =~= " at "@ + p.file@ + ":"@ + decimal(p.line as nat));
    }
    let mut r: String = "❌ PANIC".to_owned();
    r.append(at.as_str());
    r.append(": ");
    match message {
        Some(m) => r.append(m),
        None => r.append("unknown panic"),
    }
    r
}

/// The lines that a server logs on a panic, before the backtrace.
pub open spec fn panic_report(place: Option<PanicPlace>, message: Option<Seq<char>>) -> Seq<
    Seq<char>,
> {
    seq![
        "Panic reason: "@ + match message {
            Some(m) => m,
            None => "<unknown>"@,
        },
    ] + (match place {
        Some(p) => seq!["Panic location: "@ + p.file@ + ":"@ + decimal(p.line as nat)],
        None => Seq::empty(),
    }) + seq!["Panic backtrace:"@]
}

/// The lines that a server logs on a panic, before the backtrace, where
/// `message` is what it was given, if that is text.
pub fn panic_lines(place: &Option<PanicPlace>, message: Option<&str>) -> (r: Vec<String>)
    ensures
        texts(r@) == panic_report(
            *place,
            match message {
                Some(m) => Some(m@),
                None => None,
            },
        ),
{
    let reason: &str = match message {
        Some(m) => m,
        None => "<unknown>",
    };
    let mut r: Vec<String> = Vec::new();
    r.push(concat2("Panic reason: ", reason));
    if let Some(p) = place {
        let mut line: String = concat3("Panic location: ", p.file.as_str(), ":");
        line.append(number_text(p.line as u64).as_str());
        r.push(line);
    }
    r.push("Panic backtrace:".to_owned());
    assert(texts(r@) =~= panic_report(
        *place,
        match message {
            Some(m) => Some(m@),
            None => None,
        },
    ));
    r
}

/// The settings of a server.
#[derive(Clone, Debug)]
pub struct ServerSettings {
    pub port: u16,
    pub log_path: String,
    pub log_level: String,
    /// How many days of log files are kept.
    pub retain_days: u32,
}

/// The line around a block of lines.
pub open spec fn ruler() -> Seq<char> {
    "========================================"@
}

/// The lines before the log is set up.
pub open spec fn startup_report(version: Seq<char>, settings: ServerSettings) -> Seq<Seq<char>> {
    seq![
        ruler(),
        "Starting MCP proxy service..."@,
        "Version: "@ + version,
        "Configuration loaded:"@,
        "  - Port: "@ + decimal(settings.port as nat),
        "  - Log directory: "@ + settings.log_path@,
        "  - Log level: "@ + settings.log_level@,
        "  - Log retention days: "@ + decimal(settings.retain_days as nat),
        ruler(),
    ]
}

/// The lines before the log is set up.
pub fn startup_lines(version: &str, settings: &ServerSettings) -> (r: Vec<String>)
    ensures
        texts(r@) == startup_report(version@, *settings),
{
    let mut r: Vec<String> = Vec::new();
    r.push("========================================".to_owned());
    r.push("Starting MCP proxy service...".to_owned());
    r.push(concat2("Version: ", version));
    r.push("Configuration loaded:".to_owned());
    r.push(concat2("  - Port: ", number_text(settings.port as u64).as_str()));
    r.push(concat2("  - Log directory: ", settings.log_path.as_str()));
    r.push(concat2("  - Log level: ", settings.log_level.as_str()));
    r.push(concat2("  - Log retention days: ", number_text(settings.retain_days as u64).as_str()));
    r.push("========================================".to_owned());
    assert(texts(r@) =~= startup_report(version@, *settings));
    r
}

/// The address that a server listens on.
pub open spec fn listen_text(port: u16) -> Seq<char> {
    "0.0.0.0:"@ + decimal(port as nat)
}

/// The address that a server listens on.
pub fn listen_address(port: u16) -> (r: String)
    ensures
        r@ == listen_text(port),
{
    concat2("0.0.0.0:", number_text(port as u64).as_str())
}

/// The lines once a server listens.
pub open spec fn listening_report(settings: ServerSettings) -> Seq<Seq<char>> {
    let addr = listen_text(settings.port);
    seq![
        "MCP proxy started: "@ + addr,
        "Health endpoint: http://"@ + addr + "/health"@,
        "MCP list endpoint: http://"@ + addr + "/mcp/list"@,
        "Background schedule task started"@,
        "Log rotation configured (keep last "@ + decimal(settings.retain_days as nat) + " files)"@,
    ]
}

/// The lines once a server listens.
pub fn listening_lines(settings: &ServerSettings) -> (r: Vec<String>)
    ensures
        texts(r@) == listening_report(*settings),
{
    let addr: String = listen_address(settings.port);
    let mut r: Vec<String> = Vec::new();
    r.push(concat2("MCP proxy started: ", addr.as_str()));
    r.push(concat3("Health endpoint: http://", addr.as_str(), "/health"));
    r.push(concat3("MCP list endpoint: http://", addr.as_str(), "/mcp/list"));
    r.push("Background schedule task started".to_owned());
    r.push(
        concat3(
            "Log rotation configured (keep last ",
            number_text(settings.retain_days as u64).as_str(),
            " files)",
        ),
    );
    assert(texts(r@) =~= listening_report(*settings));
    r
}

/// The settings that the environment has overridden: whether the port, and the
/// values of the others.
#[derive(Clone, Debug)]
pub struct Overrides {
    pub port: bool,
    pub log_dir: Option<String>,
    pub log_level: Option<String>,
}

/// The lines on settings that the environment has overridden.
pub open spec fn override_report(overrides: Overrides, port: u16) -> Seq<Seq<char>> {
    (if overrides.port {
        seq!["  - MCP_PROXY_PORT override detected: "@ + decimal(port as nat)]
    } else {
        Seq::empty()
    }) + (match overrides.log_dir {
        Some(dir) => seq!["  - MCP_PROXY_LOG_DIR override detected: "@ + dir@],
        None => Seq::empty(),
    }) + match overrides.log_level {
        Some(level) => seq!["  - MCP_PROXY_LOG_LEVEL override detected: "@ + level@],
        None => Seq::empty(),
    }
}

/// The lines on settings that the environment has overridden.
pub fn override_lines(overrides: &Overrides, port: u16) -> (r: Vec<String>)
    ensures
        texts(r@) == override_report(*overrides, port),
{
    let mut r: Vec<String> = Vec::new();
    if overrides.port {
        r.push(concat2("  - MCP_PROXY_PORT override detected: ", number_text(port as u64).as_str()));
    }
    if let Some(dir) = &overrides.log_dir {
        r.push(concat2("  - MCP_PROXY_LOG_DIR override detected: ", dir.as_str()));
    }
    if let Some(level) = &overrides.log_level {
        r.push(concat2("  - MCP_PROXY_LOG_LEVEL override detected: ", level.as_str()));
    }
    assert(texts(r@) =~= override_report(*overrides, port));
    r
}

/// The lines that a server logs when it starts.
pub open spec fn server_report(
    version: Seq<char>,
    settings: ServerSettings,
    overrides: Overrides,
) -> Seq<Seq<char>> {
    (seq![
        ruler(),
        "Starting MCP proxy service..."@,
        "Running in proxy server mode"@,
        "Version: "@ + version,
        "Configuration:"@,
        "  - Listen port: "@ + decimal(settings.port as nat),
        "  - Log directory: "@ + settings.log_path@,
        "  - Log level: "@ + settings.log_level@,
        "  - Log retention days: "@ + decimal(settings.retain_days as nat),
        "Environment overrides:"@,
    ] + override_report(overrides, settings.port)).push(ruler())
}

/// The lines that a server logs when it starts.
pub fn server_lines(version: &str, settings: &ServerSettings, overrides: &Overrides) -> (r: Vec<
    String,
>)
    ensures
        texts(r@) == server_report(version@, *settings, *overrides),
{
    let mut r: Vec<String> = Vec::new();
    r.push("========================================".to_owned());
    r.push("Starting MCP proxy service...".to_owned());
    r.push("Running in proxy server mode".to_owned());
    r.push(concat2("Version: ", version));
    r.push("Configuration:".to_owned());
    r.push(concat2("  - Listen port: ", number_text(settings.port as u64).as_str()));
    r.push(concat2("  - Log directory: ", settings.log_path.as_str()));
    r.push(concat2("  - Log level: ", settings.log_level.as_str()));
    r.push(concat2("  - Log retention days: ", number_text(settings.retain_days as u64).as_str()));
    r.push("Environment overrides:".to_owned());
    let mut lines: Vec<String> = override_lines(overrides, settings.port);
    let ghost first = texts(r@);
    let ghost more = texts(lines@);
    r.append(&mut lines);
    assert(texts(r@) =~= first + more);
    r.push("========================================".to_owned());
    assert(texts(r@) =~= server_report(version@, *settings, *overrides));
    r
}

/// The program is a client where a command or a URL is given, and else a server.
/// A client logs what it is asked to: everything where it is verbose, nothing on a
/// question for its health, and else errors. A quiet one, or one that sets up its
/// own log, logs nothing here.
pub proof fn command_line_decides_mode_and_log(
    command: Option<CliCommand>,
    has_url: bool,
    verbose: bool,
    quiet: bool,
    client: bool,
    level: Option<&'static str>,
)
    requires
        call_ensures(is_client, (command is Some, has_url), client),
        call_ensures(client_log_level, (command, verbose, quiet), level),
    ensures
        client <==> command is Some || has_url,
        quiet ==> level is None,
        command == Some(CliCommand::Convert) || command == Some(CliCommand::Proxy) ==> level
            is None,
        level is Some && verbose ==> level->0@ == "debug"@,
        level is Some && !verbose && command == Some(CliCommand::Health) ==> level->0@ == "off"@,
        level is Some && !verbose && command != Some(CliCommand::Health) ==> level->0@
            == "error"@,
        !quiet && (command is None || command == Some(CliCommand::Health) || command == Some(
            CliCommand::Other,
        )) ==> level is Some,
{
}

/// A panic is told with its whole place and its whole message, where they are
/// known, on one line of a client and on lines of their own of a server.
pub proof fn panics_are_told_in_full(
    place: &Option<PanicPlace>,
    message: Option<&str>,
    line: String,
    lines: Vec<String>,
)
    requires
        call_ensures(panic_line, (place, message), line),
        call_ensures(panic_lines, (place, message), lines),
    ensures
        ({
            let told = match message {
                Some(m) => m@,
                None => "unknown panic"@,
            };
            let reason = match message {
                Some(m) => m@,
                None => "<unknown>"@,
            };
            &&& *place is None ==> frames(line@, "❌ PANIC"@, ": "@, told)
            &&& *place is Some ==> frames(
                line@,
                "❌ PANIC at "@,
                place->0.file@,
                ":"@ + decimal(place->0.line as nat) + ": "@ + told,
            )
            &&& lines@.len() == if *place is Some {
                3int
            } else {
                2int
            }
            &&& frames(lines@[0]@, "Panic reason: "@, reason, Seq::empty())
            &&& *place is Some ==> frames(
                lines@[1]@,
                "Panic location: "@,
                place->0.file@,
                ":"@ + decimal(place->0.line as nat),
            )
            &&& lines@.last()@ == "Panic backtrace:"@
        }),
{
    let told = match message {
        Some(m) => m@,
        None => "unknown panic"@,
    };
    reveal_strlit("❌ PANIC");
    reveal_strlit(" at ");
    reveal_strlit("❌ PANIC at ");
    assert("❌ PANIC at "@ =~= "❌ PANIC"@ + " at "@);
    if *place is Some {
        assert(line@ =~= "❌ PANIC at "@ + place->0.file@ + (":"@ + decimal(place->0.line as nat)
            + ": "@ + told));
    } else {
        assert(line@ =~= "❌ PANIC"@ + ": "@ + told);
    }
    assert(texts(lines@).len() == lines@.len());
    assert(texts(lines@)[0] == lines@[0]@);
    assert(texts(lines@)[1] == lines@[1]@);
    assert(texts(lines@)[lines@.len() - 1] == lines@[lines@.len() - 1]@);
}

/// A line gives a value behind its name.
pub open spec fn gives(line: String, name: Seq<char>, value: Seq<char>) -> bool {
    frames(line@, name, value, Seq::empty())
}

/// Before its log is set up, a server gives its version and its settings, each
/// whole and on a line of its own.
pub proof fn settings_are_given_in_full(version: &str, settings: &ServerSettings, r: Vec<String>)
    requires
        call_ensures(startup_lines, (version, settings), r),
    ensures
        r@.len() == 9,
        r@[0]@ == "========================================"@ && r@[8]@ == r@[0]@,
        r@[1]@ == "Starting MCP proxy service..."@ && r@[3]@ == "Configuration loaded:"@,
        gives(r@[2], "Version: "@, version@),
        gives(r@[4], "  - Port: "@, decimal(settings.port as nat)),
        gives(r@[5], "  - Log directory: "@, settings.log_path@),
        gives(r@[6], "  - Log level: "@, settings.log_level@),
        gives(r@[7], "  - Log retention days: "@, decimal(settings.retain_days as nat)),
{
    assert(texts(r@).len() == r@.len());
    assert(texts(r@)[0] == r@[0]@);
    assert(texts(r@)[1] == r@[1]@);
    assert(texts(r@)[3] == r@[3]@);
    assert(texts(r@)[8] == r@[8]@);
    assert(texts(r@)[2] == r@[2]@);
    assert(texts(r@)[4] == r@[4]@);
    assert(texts(r@)[5] == r@[5]@);
    assert(texts(r@)[6] == r@[6]@);
    assert(texts(r@)[7] == r@[7]@);
}

/// A server listens on its port on every address, and gives that address wherever
/// it is asked for.
pub proof fn server_listens_on_its_port(
    settings: &ServerSettings,
    address: String,
    lines: Vec<String>,
)
    requires
        call_ensures(listen_address, (settings.port,), address),
        call_ensures(listening_lines, (settings,), lines),
    ensures
        gives(address, "0.0.0.0:"@, decimal(settings.port as nat)),
        lines@.len() == 5,
        gives(lines@[0], "MCP proxy started: "@, address@),
        frames(lines@[1]@, "Health endpoint: http://"@, address@, "/health"@),
        frames(lines@[2]@, "MCP list endpoint: http://"@, address@, "/mcp/list"@),
        lines@[3]@ == "Background schedule task started"@,
        frames(
            lines@[4]@,
            "Log rotation configured (keep last "@,
            decimal(settings.retain_days as nat),
            " files)"@,
        ),
{
    assert(texts(lines@).len() == lines@.len());
    assert(texts(lines@)[0] == lines@[0]@);
    assert(texts(lines@)[1] == lines@[1]@);
    assert(texts(lines@)[2] == lines@[2]@);
    assert(texts(lines@)[3] == lines@[3]@);
    assert(texts(lines@)[4] == lines@[4]@);
}

/// Each setting that the environment has overridden is told, with its value, and
/// no other.
pub proof fn overrides_are_told(overrides: &Overrides, port: u16, r: Vec<String>)
    requires
        call_ensures(override_lines, (overrides, port), r),
    ensures
        ({
            let of_port = if overrides.port {
                1int
            } else {
                0int
            };
            let of_dir = if overrides.log_dir is Some {
                1int
            } else {
                0int
            };
            let of_level = if overrides.log_level is Some {
                1int
            } else {
                0int
            };
            &&& r@.len() == of_port + of_dir + of_level
            &&& overrides.port ==> gives(
                r@[0],
                "  - MCP_PROXY_PORT override detected: "@,
                decimal(port as nat),
            )
            &&& overrides.log_dir is Some ==> gives(
                r@[of_port],
                "  - MCP_PROXY_LOG_DIR override detected: "@,
                overrides.log_dir->0@,
            )
            &&& overrides.log_level is Some ==> gives(
                r@.last(),
                "  - MCP_PROXY_LOG_LEVEL override detected: "@,
                overrides.log_level->0@,
            )
        }),
{
    assert(texts(r@).len() == r@.len());
    if overrides.port {
        assert(texts(r@)[0] == r@[0]@);
    }
    if overrides.log_dir is Some {
        let i = if overrides.port {
            1int
        } else {
            0int
        };
        assert(texts(r@)[i] == r@[i]@);
    }
    if overrides.log_level is Some {
        assert(texts(r@)[r@.len() - 1] == r@[r@.len() - 1]@);
    }
}

/// When it starts, a server logs its version and its settings, each whole and on
/// a line of its own, and below them what the environment has overridden.
pub proof fn start_is_logged_in_full(
    version: &str,
    settings: &ServerSettings,
    overrides: &Overrides,
    r: Vec<String>,
)
    requires
        call_ensures(server_lines, (version, settings, overrides), r),
    ensures
        r@.len() == 11 + override_report(*overrides, settings.port).len(),
        r@[0]@ == "========================================"@ && r@.last()@ == r@[0]@,
        r@[1]@ == "Starting MCP proxy service..."@ && r@[2]@ == "Running in proxy server mode"@,
        r@[4]@ == "Configuration:"@ && r@[9]@ == "Environment overrides:"@,
        gives(r@[3], "Version: "@, version@),
        gives(r@[5], "  - Listen port: "@, decimal(settings.port as nat)),
        gives(r@[6], "  - Log directory: "@, settings.log_path@),
        gives(r@[7], "  - Log level: "@, settings.log_level@),
        gives(r@[8], "  - Log retention days: "@, decimal(settings.retain_days as nat)),
        texts(r@).subrange(10, r@.len() - 1) == override_report(*overrides, settings.port),
{
    assert(texts(r@).len() == r@.len());
    assert(texts(r@)[0] == r@[0]@);
    assert(texts(r@)[1] == r@[1]@);
    assert(texts(r@)[2] == r@[2]@);
    assert(texts(r@)[3] == r@[3]@);
    assert(texts(r@)[4] == r@[4]@);
    assert(texts(r@)[9] == r@[9]@);
    assert(texts(r@)[r@.len() - 1] == r@[r@.len() - 1]@);
    assert(texts(r@)[5] == r@[5]@);
    assert(texts(r@)[6] == r@[6]@);
    assert(texts(r@)[7] == r@[7]@);
    assert(texts(r@)[8] == r@[8]@);
    assert(texts(r@).subrange(10, r@.len() - 1) =~= override_report(*overrides, settings.port));
}

} // verus!
