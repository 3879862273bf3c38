//! Simulated events for testing rules without a live host: the simulation
//! event types, installation scopes, and the builder that turns a tool
//! name and arguments into a complete event.

use vstd::prelude::*;
use vstd::string::*;
use crate::events::{Event, EventType, ToolInput};
use crate::text;

verus! {

/// Event types accepted by the simulation front end.
#[derive(Debug, Clone, Copy, PartialEq, Eq, Structural)]
pub enum SimEventType {
    PreToolUse,
    PostToolUse,
    SessionStart,
    PermissionRequest,
}

/// The spellings accepted for one simulation event type, up to ASCII case.
pub open spec fn sim_name_matches(s: Seq<char>, t: SimEventType) -> bool {
    match t {
        SimEventType::PreToolUse => text::seq_eq_ci(s, "pretooluse"@) || text::seq_eq_ci(s, "pre"@)
            || text::seq_eq_ci(s, "pre-tool-use"@),
        SimEventType::PostToolUse => text::seq_eq_ci(s, "posttooluse"@) || text::seq_eq_ci(
            s,
            "post"@,
        ) || text::seq_eq_ci(s, "post-tool-use"@),
        SimEventType::SessionStart => text::seq_eq_ci(s, "sessionstart"@) || text::seq_eq_ci(
            s,
            "session"@,
        ) || text::seq_eq_ci(s, "start"@),
        SimEventType::PermissionRequest => text::seq_eq_ci(s, "permissionrequest"@)
            || text::seq_eq_ci(s, "permission"@) || text::seq_eq_ci(s, "perm"@),
    }
}

/// The engine event type a simulation type stands for.
pub open spec fn spec_model_event_type(t: SimEventType) -> EventType {
    match t {
        SimEventType::PreToolUse => EventType::PreToolUse,
        SimEventType::PostToolUse => EventType::PostToolUse,
        SimEventType::SessionStart => EventType::SessionStart,
        SimEventType::PermissionRequest => EventType::PermissionRequest,
    }
}

impl SimEventType {
    /// The engine event type this simulation type stands for.
    pub fn as_model_event_type(self) -> (r: EventType)
        ensures
            r == spec_model_event_type(self),
    {
        match self {
            SimEventType::PreToolUse => EventType::PreToolUse,
            SimEventType::PostToolUse => EventType::PostToolUse,
            SimEventType::SessionStart => EventType::SessionStart,
            SimEventType::PermissionRequest => EventType::PermissionRequest,
        }
    }

    /// Parse a simulation event type from any of its accepted spellings,
    /// ignoring ASCII case.
    pub fn from_str(s: &str) -> (r: Option<SimEventType>)
        ensures
            r matches Some(t) ==> sim_name_matches(s@, t),
            r is None ==> !sim_name_matches(s@, SimEventType::PreToolUse) && !sim_name_matches(
                s@,
                SimEventType::PostToolUse,
            ) && !sim_name_matches(s@, SimEventType::SessionStart) && !sim_name_matches(
                s@,
                SimEventType::PermissionRequest,
            ),
    {
        if text::eq_ignore_ascii_case(s, "pretooluse") || text::eq_ignore_ascii_case(s, "pre")
            || text::eq_ignore_ascii_case(s, "pre-tool-use") {
            Some(SimEventType::PreToolUse)
        } else if text::eq_ignore_ascii_case(s, "posttooluse") || text::eq_ignore_ascii_case(
            s,
            "post",
        ) || text::eq_ignore_ascii_case(s, "post-tool-use") {
            Some(SimEventType::PostToolUse)
        } else if text::eq_ignore_ascii_case(s, "sessionstart") || text::eq_ignore_ascii_case(
            s,
            "session",
        ) || text::eq_ignore_ascii_case(s, "start") {
            Some(SimEventType::SessionStart)
        } else if text::eq_ignore_ascii_case(s, "permissionrequest") || text::eq_ignore_ascii_case(
            s,
            "permission",
        ) || text::eq_ignore_ascii_case(s, "perm") {
            Some(SimEventType::PermissionRequest)
        } else {
            None
        }
    }
}

/// Where a hook registration applies.
#[derive(Debug, Clone, Copy, PartialEq, Eq, Structural)]
pub enum Scope {
    /// The current project only.
    Project,
    /// The user's global settings.
    Global,
}

/// The display name of an installation scope.
pub fn scope_name(scope: Scope) -> (r: &'static str)
    ensures
        scope == Scope::Project ==> r@ == "project"@,
        scope == Scope::Global ==> r@ == "global"@,
{
    match scope {
        Scope::Project => "project",
        Scope::Global => "global",
    }
}

/// Relies on `std::time::SystemTime::now` and
/// `std::time::SystemTime::duration_since`: the nanoseconds since the Unix
/// epoch, zero when the clock stands before it.  Nothing is promised of
/// the clock's value.
#[verifier::external_body]
fn now_unix_nanos() -> u128 {
    std::time::SystemTime::now()
        .duration_since(std::time::UNIX_EPOCH)
        .unwrap_or_default()
        .as_nanos()
}

/// A simple unique-enough identifier: the current time in nanoseconds,
/// formatted as lower-case hexadecimal.
pub fn uuid_simple() -> (r: String)
    ensures
        exists|n: int| n >= 0 && r@ == #[trigger] text::hex_seq(n as nat),
{
    let nanos = now_unix_nanos();
    let r = text::hex_string(nanos);
    proof {
        let n: int = nanos as int;
        assert(n >= 0 && r@ == text::hex_seq(n as nat));
    }
    r
}

/// The current time in microseconds since the Unix epoch, as an event
/// timestamp.
pub fn now_timestamp() -> (r: i64)
    ensures
        r >= 0,
{
    let nanos = now_unix_nanos();
    let micros = nanos / 1000;
    if micros > 0x7fff_ffff_ffff_ffff {
        0x7fff_ffff_ffff_ffff
    } else {
        micros as i64
    }
}

fn or_default(v: Option<String>, default: &str) -> (r: String)
    ensures
        v matches Some(s) ==> r == s,
        v is None ==> r@ == default@,
{
    match v {
        Some(s) => s,
        None => default.to_owned(),
    }
}

/// An empty tool payload.
fn empty_tool_input() -> (r: ToolInput)
    ensures
        r.command is None,
        r.file_path is None,
        r.new_content is None,
        r.pattern is None,
        r.path is None,
        r.source is None,
        r.reason is None,
        r.transcript_path is None,
        r.cwd is None,
{
    ToolInput {
        command: None,
        file_path: None,
        new_content: None,
        pattern: None,
        path: None,
        source: None,
        reason: None,
        transcript_path: None,
        cwd: None,
    }
}

/// Build a simulated event for the given tool: a shell tool carries the
/// command, a file tool carries the path and a placeholder content, a
/// search tool carries the pattern and path, anything else an empty
/// payload.  The session id is freshly generated and the timestamp is the
/// current time.
pub fn build_event(
    event_type: SimEventType,
    tool: Option<String>,
    command: Option<String>,
    path: Option<String>,
) -> (r: Event)
    ensures
        r.event_type == spec_model_event_type(event_type),
        r.tool_name is Some,
        (tool matches Some(t) ==> r.tool_name == Some(t)),
        (tool is None ==> r.tool_name->0@ == "Bash"@),
        r.tool_input is Some,
        r.user_id is None,
        r.transcript_path is None,
        r.cwd is None,
        r.permission_mode is None,
        r.tool_use_id is None,
        r.session_id@.len() >= 6 && r.session_id@.subrange(0, 6) == "debug-"@,
        (r.tool_name->0@ == "Bash"@ ==> (r.tool_input->0.command matches Some(c) && (
        command matches Some(given) ==> c == given) && (command is None ==> c@
            == "echo 'test'"@))),
        ((r.tool_name->0@ == "Write"@ || r.tool_name->0@ == "Edit"@ || r.tool_name->0@
            == "Read"@) ==> (r.tool_input->0.file_path matches Some(p) && (
        path matches Some(given) ==> p == given) && (path is None ==> p@ == "src/main.rs"@))),
        ((r.tool_name->0@ == "Glob"@ || r.tool_name->0@ == "Grep"@) ==> (
        r.tool_input->0.pattern matches Some(p) && (command matches Some(given) ==> p == given) && (
        command is None ==> p@ == "*.rs"@))),
    {
        let tool_name = or_default(tool, "Bash");
        let mut session_id = String::new();
        session_id.append("debug-");
        let id = uuid_simple();
        session_id.append(id.as_str());
        proof {
            reveal_strlit("debug-");
            assert(session_id@.subrange(0, 6) =~= "debug-"@);
        }
        proof {
            crate::events::lemma_tool_names_distinct();
        }
        let tool_input = if text::str_eq(tool_name.as_str(), "Bash") {
            let cmd = or_default(command, "echo 'test'");
            let mut ti = empty_tool_input();
            ti.command = Some(cmd);
            ti
        } else if text::str_eq(tool_name.as_str(), "Write") || text::str_eq(
            tool_name.as_str(),
            "Edit",
        ) || text::str_eq(tool_name.as_str(), "Read") {
            let file_path = or_default(path, "src/main.rs");
            let mut ti = empty_tool_input();
            ti.file_path = Some(file_path);
            ti.new_content = Some(String::from_str("// Simulated content"));
            ti
        } else if text::str_eq(tool_name.as_str(), "Glob") || text::str_eq(
            tool_name.as_str(),
            "Grep",
        ) {
            let pattern = or_default(command, "*.rs");
            let search_path = or_default(path, ".");
            let mut ti = empty_tool_input();
            ti.pattern = Some(pattern);
            ti.path = Some(search_path);
            ti
        } else {
            empty_tool_input()
        };
        Event {
            event_type: event_type.as_model_event_type(),
            tool_name: Some(tool_name),
            tool_input: Some(tool_input),
            session_id,
            timestamp: now_timestamp(),
            user_id: None,
            transcript_path: None,
            cwd: None,
            permission_mode: None,
            tool_use_id: None,
        }
    }

} // verus!
