//! The event model: one structured tool-use event, immutable for the
//! duration of its evaluation, plus the typed detail extraction used for
//! logging.

use vstd::prelude::*;
use crate::rules::clone_opt_string;
use crate::text;

verus! {

/// Supported hook event types.
#[derive(Debug, Clone, Copy, PartialEq, Eq, Structural)]
pub enum EventType {
    PreToolUse,
    PostToolUse,
    PermissionRequest,
    UserPromptSubmit,
    SessionStart,
    SessionEnd,
    PreCompact,
}

impl EventType {
    /// The event type's name, as it appears in configurations and logs.
    pub fn as_str(&self) -> (r: &'static str)
        ensures
            r@ == spec_event_type_name(*self),
    {
        match self {
            EventType::PreToolUse => "PreToolUse",
            EventType::PostToolUse => "PostToolUse",
            EventType::PermissionRequest => "PermissionRequest",
            EventType::UserPromptSubmit => "UserPromptSubmit",
            EventType::SessionStart => "SessionStart",
            EventType::SessionEnd => "SessionEnd",
            EventType::PreCompact => "PreCompact",
        }
    }
}

/// The name of an event type.
pub open spec fn spec_event_type_name(t: EventType) -> Seq<char> {
    match t {
        EventType::PreToolUse => "PreToolUse"@,
        EventType::PostToolUse => "PostToolUse"@,
        EventType::PermissionRequest => "PermissionRequest"@,
        EventType::UserPromptSubmit => "UserPromptSubmit"@,
        EventType::SessionStart => "SessionStart"@,
        EventType::SessionEnd => "SessionEnd"@,
        EventType::PreCompact => "PreCompact"@,
    }
}

/// The normalized tool payload: the fields of the host protocol's untyped
/// `tool_input` object that the engine reads, decoded once at the parsing
/// boundary.  The host's alternative spellings (`filePath` beside
/// `file_path`, `newString` beside `content`) are folded into one field
/// each before an event reaches the engine.
#[derive(Debug, Default)]
pub struct ToolInput {
    /// The command string of a shell invocation.
    pub command: Option<String>,
    /// The file path of a read, write or edit.
    pub file_path: Option<String>,
    /// The new or edited content of a write or edit.
    pub new_content: Option<String>,
    /// The search pattern of a glob or grep.
    pub pattern: Option<String>,
    /// The search path of a glob or grep.
    pub path: Option<String>,
    /// The source of a session event.
    pub source: Option<String>,
    /// The reason of a session event.
    pub reason: Option<String>,
    /// The transcript path of a session event.
    pub transcript_path: Option<String>,
    /// The working directory of a session event.
    pub cwd: Option<String>,
}

impl Clone for ToolInput {
    /// The copy equals the original.
    fn clone(&self) -> (r: Self)
        ensures
            r == *self,
    {
        ToolInput {
            command: clone_opt_string(&self.command),
            file_path: clone_opt_string(&self.file_path),
            new_content: clone_opt_string(&self.new_content),
            pattern: clone_opt_string(&self.pattern),
            path: clone_opt_string(&self.path),
            source: clone_opt_string(&self.source),
            reason: clone_opt_string(&self.reason),
            transcript_path: clone_opt_string(&self.transcript_path),
            cwd: clone_opt_string(&self.cwd),
        }
    }
}

/// One structured tool-use event.  Immutable once received; its lifetime is
/// a single evaluation call.  Timestamps are microseconds since the Unix
/// epoch.
#[derive(Debug)]
pub struct Event {
    /// The hook event type.
    pub event_type: EventType,
    /// Name of the tool being used.
    pub tool_name: Option<String>,
    /// The tool's normalized payload.
    pub tool_input: Option<ToolInput>,
    /// Unique session identifier.
    pub session_id: String,
    /// Event time, in microseconds since the Unix epoch.
    pub timestamp: i64,
    /// User identifier, if available.
    pub user_id: Option<String>,
    /// Pass-through host-protocol metadata: the transcript path.
    pub transcript_path: Option<String>,
    /// Pass-through host-protocol metadata: the working directory.
    pub cwd: Option<String>,
    /// Pass-through host-protocol metadata: the permission mode.
    pub permission_mode: Option<String>,
    /// Pass-through host-protocol metadata: the tool-invocation id.
    pub tool_use_id: Option<String>,
}

impl Clone for Event {
    /// The copy equals the original.
    fn clone(&self) -> (r: Self)
        ensures
            r == *self,
    {
        Event {
            event_type: self.event_type,
            tool_name: clone_opt_string(&self.tool_name),
            tool_input: match &self.tool_input {
                Some(t) => Some(t.clone()),
                None => None,
            },
            session_id: self.session_id.clone(),
            timestamp: self.timestamp,
            user_id: clone_opt_string(&self.user_id),
            transcript_path: clone_opt_string(&self.transcript_path),
            cwd: clone_opt_string(&self.cwd),
            permission_mode: clone_opt_string(&self.permission_mode),
            tool_use_id: clone_opt_string(&self.tool_use_id),
        }
    }
}

/// Typed event details extracted from the tool payload, for logging.
#[derive(Debug)]
pub enum EventDetails {
    /// Shell command execution.
    Bash { command: String },
    /// File write operation.
    Write { file_path: String },
    /// File edit operation.
    Edit { file_path: String },
    /// File read operation.
    Read { file_path: String },
    /// Glob pattern search.
    Glob { pattern: Option<String>, path: Option<String> },
    /// Grep content search.
    Grep { pattern: Option<String>, path: Option<String> },
    /// Session start or end.
    Session {
        source: Option<String>,
        reason: Option<String>,
        transcript_path: Option<String>,
        cwd: Option<String>,
    },
    /// Permission request wrapping another tool.
    Permission { permission_mode: Option<String>, tool_details: Box<EventDetails> },
    /// Unknown or unsupported tool.
    Unknown { tool_name: Option<String> },
}

impl Clone for EventDetails {
    /// The copy equals the original.
    fn clone(&self) -> (r: Self)
        ensures
            r == *self,
        decreases self,
    {
        match self {
            EventDetails::Bash { command } => EventDetails::Bash { command: command.clone() },
            EventDetails::Write { file_path } => EventDetails::Write {
                file_path: file_path.clone(),
            },
            EventDetails::Edit { file_path } => EventDetails::Edit {
                file_path: file_path.clone(),
            },
            EventDetails::Read { file_path } => EventDetails::Read {
                file_path: file_path.clone(),
            },
            EventDetails::Glob { pattern, path } => EventDetails::Glob {
                pattern: clone_opt_string(pattern),
                path: clone_opt_string(path),
            },
            EventDetails::Grep { pattern, path } => EventDetails::Grep {
                pattern: clone_opt_string(pattern),
                path: clone_opt_string(path),
            },
            EventDetails::Session { source, reason, transcript_path, cwd } =>
                EventDetails::Session {
                source: clone_opt_string(source),
                reason: clone_opt_string(reason),
                transcript_path: clone_opt_string(transcript_path),
                cwd: clone_opt_string(cwd),
            },
            EventDetails::Permission { permission_mode, tool_details } =>
                EventDetails::Permission {
                permission_mode: clone_opt_string(permission_mode),
                tool_details: Box::new((**tool_details).clone()),
            },
            EventDetails::Unknown { tool_name } => EventDetails::Unknown {
                tool_name: clone_opt_string(tool_name),
            },
        }
    }
}

fn field_or_empty(ti: &Option<ToolInput>, command: bool) -> (r: String)
    ensures
        command ==> r@ == spec_command_of_opt(*ti),
        !command ==> r@ == spec_file_path_of_opt(*ti),
{
    match ti {
        Some(t) => {
            let field = if command {
                &t.command
            } else {
                &t.file_path
            };
            match field {
                Some(c) => c.clone(),
                None => String::new(),
            }
        },
        None => String::new(),
    }
}

/// As `spec_command_of`, over the bare payload.
pub open spec fn spec_command_of_opt(ti: Option<ToolInput>) -> Seq<char> {
    match ti {
        Some(t) => match t.command {
            Some(c) => c@,
            None => Seq::empty(),
        },
        None => Seq::empty(),
    }
}

/// As `spec_file_path_of`, over the bare payload.
pub open spec fn spec_file_path_of_opt(ti: Option<ToolInput>) -> Seq<char> {
    match ti {
        Some(t) => match t.file_path {
            Some(p) => p@,
            None => Seq::empty(),
        },
        None => Seq::empty(),
    }
}

/// What `EventDetails::extract` promises: each recognized tool name maps to
/// its typed variant carrying the payload's fields; a session event without
/// a tool name maps to the session variant; anything else is recorded
/// unknown, with the tool name carried through unchanged.
pub open spec fn spec_extract_matches(e: Event, r: EventDetails) -> bool {
    &&& ((e.tool_name matches Some(t) && t@ == "Bash"@) ==> (r matches EventDetails::Bash {
        command,
    } && command@ == spec_command_of_opt(e.tool_input)))
    &&& ((e.tool_name matches Some(t) && t@ == "Write"@) ==> (r matches EventDetails::Write {
        file_path,
    } && file_path@ == spec_file_path_of_opt(e.tool_input)))
    &&& ((e.tool_name matches Some(t) && t@ == "Edit"@) ==> (r matches EventDetails::Edit {
        file_path,
    } && file_path@ == spec_file_path_of_opt(e.tool_input)))
    &&& ((e.tool_name matches Some(t) && t@ == "Read"@) ==> (r matches EventDetails::Read {
        file_path,
    } && file_path@ == spec_file_path_of_opt(e.tool_input)))
    &&& ((e.tool_name matches Some(t) && t@ == "Glob"@) ==> (r matches EventDetails::Glob {
        pattern,
        path,
    } && pattern == spec_ti_field(e.tool_input, TiField::Pattern) && path == spec_ti_field(
        e.tool_input,
        TiField::Path,
    )))
    &&& ((e.tool_name matches Some(t) && t@ == "Grep"@) ==> (r matches EventDetails::Grep {
        pattern,
        path,
    } && pattern == spec_ti_field(e.tool_input, TiField::Pattern) && path == spec_ti_field(
        e.tool_input,
        TiField::Path,
    )))
    &&& ((e.tool_name is None && (e.event_type == EventType::SessionStart || e.event_type
        == EventType::SessionEnd)) ==> (r matches EventDetails::Session {
        source,
        reason,
        transcript_path,
        cwd,
    } && source == spec_ti_field(e.tool_input, TiField::Source) && reason == spec_ti_field(
        e.tool_input,
        TiField::Reason,
    ) && transcript_path == spec_ti_field(e.tool_input, TiField::TranscriptPath) && cwd
        == spec_ti_field(e.tool_input, TiField::Cwd)))
    &&& ((match e.tool_name {
        Some(t) => t@ != "Bash"@ && t@ != "Write"@ && t@ != "Edit"@ && t@ != "Read"@ && t@
            != "Glob"@ && t@ != "Grep"@,
        None => e.event_type != EventType::SessionStart && e.event_type != EventType::SessionEnd,
    }) ==> (r matches EventDetails::Unknown { tool_name } && tool_name == e.tool_name))
}

impl EventDetails {
    /// Extract typed details from an event, by its tool name: the known
    /// tools map to their typed variants, session events without a tool map
    /// to the session variant, and everything else is recorded unknown.
    pub fn extract(event: &Event) -> (r: EventDetails)
        ensures
            spec_extract_matches(*event, r),
    {
        proof {
            lemma_tool_names_distinct();
        }
        match &event.tool_name {
            Some(t) => {
                if text::str_eq(t.as_str(), "Bash") {
                    EventDetails::Bash { command: field_or_empty(&event.tool_input, true) }
                } else if text::str_eq(t.as_str(), "Write") {
                    EventDetails::Write { file_path: field_or_empty(&event.tool_input, false) }
                } else if text::str_eq(t.as_str(), "Edit") {
                    EventDetails::Edit { file_path: field_or_empty(&event.tool_input, false) }
                } else if text::str_eq(t.as_str(), "Read") {
                    EventDetails::Read { file_path: field_or_empty(&event.tool_input, false) }
                } else if text::str_eq(t.as_str(), "Glob") {
                    EventDetails::Glob {
                        pattern: ti_field(&event.tool_input, TiField::Pattern),
                        path: ti_field(&event.tool_input, TiField::Path),
                    }
                } else if text::str_eq(t.as_str(), "Grep") {
                    EventDetails::Grep {
                        pattern: ti_field(&event.tool_input, TiField::Pattern),
                        path: ti_field(&event.tool_input, TiField::Path),
                    }
                } else {
                    EventDetails::Unknown { tool_name: clone_opt_string(&event.tool_name) }
                }
            },
            None => {
                if matches!(event.event_type, EventType::SessionStart | EventType::SessionEnd) {
                    EventDetails::Session {
                        source: ti_field(&event.tool_input, TiField::Source),
                        reason: ti_field(&event.tool_input, TiField::Reason),
                        transcript_path: ti_field(&event.tool_input, TiField::TranscriptPath),
                        cwd: ti_field(&event.tool_input, TiField::Cwd),
                    }
                } else {
                    EventDetails::Unknown { tool_name: None }
                }
            },
        }
    }
}

/// A selector for one optional payload field.
#[derive(Debug, Clone, Copy, PartialEq, Eq, Structural)]
pub enum TiField {
    Pattern,
    Path,
    Source,
    Reason,
    TranscriptPath,
    Cwd,
}

/// The selected optional field of the payload; absent when the payload is.
pub open spec fn spec_ti_field(ti: Option<ToolInput>, f: TiField) -> Option<String> {
    match ti {
        Some(t) => match f {
            TiField::Pattern => t.pattern,
            TiField::Path => t.path,
            TiField::Source => t.source,
            TiField::Reason => t.reason,
            TiField::TranscriptPath => t.transcript_path,
            TiField::Cwd => t.cwd,
        },
        None => None,
    }
}

fn ti_field(ti: &Option<ToolInput>, f: TiField) -> (r: Option<String>)
    ensures
        r == spec_ti_field(*ti, f),
{
    match ti {
        Some(t) => match f {
            TiField::Pattern => clone_opt_string(&t.pattern),
            TiField::Path => clone_opt_string(&t.path),
            TiField::Source => clone_opt_string(&t.source),
            TiField::Reason => clone_opt_string(&t.reason),
            TiField::TranscriptPath => clone_opt_string(&t.transcript_path),
            TiField::Cwd => clone_opt_string(&t.cwd),
        },
        None => None,
    }
}

/// No two of the recognized tool names are equal.
pub proof fn lemma_tool_names_distinct()
    ensures
        "Bash"@ != "Write"@,
        "Bash"@ != "Edit"@,
        "Bash"@ != "Read"@,
        "Bash"@ != "Glob"@,
        "Bash"@ != "Grep"@,
        "Write"@ != "Edit"@,
        "Write"@ != "Read"@,
        "Write"@ != "Glob"@,
        "Write"@ != "Grep"@,
        "Edit"@ != "Read"@,
        "Edit"@ != "Glob"@,
        "Edit"@ != "Grep"@,
        "Read"@ != "Glob"@,
        "Read"@ != "Grep"@,
        "Glob"@ != "Grep"@,
{
    reveal_strlit("Bash");
    reveal_strlit("Write");
    reveal_strlit("Edit");
    reveal_strlit("Read");
    reveal_strlit("Glob");
    reveal_strlit("Grep");
    assert("Bash"@[0] != "Edit"@[0]);
    assert("Bash"@[0] != "Read"@[0]);
    assert("Bash"@[0] != "Glob"@[0]);
    assert("Bash"@[0] != "Grep"@[0]);
    assert("Edit"@[0] != "Read"@[0]);
    assert("Edit"@[0] != "Glob"@[0]);
    assert("Edit"@[0] != "Grep"@[0]);
    assert("Read"@[0] != "Glob"@[0]);
    assert("Read"@[0] != "Grep"@[0]);
    assert("Glob"@[1] != "Grep"@[1]);
}

} // verus!
