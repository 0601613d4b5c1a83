use vstd::prelude::*;

use crate::command::{
    apply_overrides, command_line, overridden_base, overridden_params, texts, AppendPrompt,
    CmdOverrides, CommandBuildError, CommandBuilder, CommandParts,
};
use crate::json::{
    find_string_field, is_json, json_object_members, json_pretty, object_members, opt_chars,
    opt_members_chars, pretty_json, string_field,
};
use crate::text::{concat2, concat3, owned, same_text};

verus! {

/// The Kilo Code coding agent: how to run its command line interface and how to read
/// what it prints.
pub struct KiloCode {
    /// Text appended to every prompt.
    pub append_prompt: AppendPrompt,
    /// The agent mode (`--mode`), such as `code` or `architect`.
    pub mode: Option<String>,
    /// The model (`--model`).
    pub model: Option<String>,
    /// Whether to approve every action (`--yolo`); absent means no.
    pub yolo: Option<bool>,
    /// The profile's command overrides.
    pub cmd: CmdOverrides,
}

/// Whether an executor finds its agent installed.
pub enum AvailabilityInfo {
    LoginDetected { last_auth_timestamp: i64 },
    InstallationFound,
    NotFound,
}

/// The command that runs the Kilo Code command line interface through `npx`.
pub open spec fn kilo_base_command() -> Seq<char> {
    "npx -y @kilocode/cli@latest"@
}

/// A flag followed by its value, when there is a value.
pub open spec fn flag_with_value(flag: Seq<char>, value: Option<String>) -> Seq<Seq<char>> {
    match value {
        Some(v) => seq![flag, v@],
        None => Seq::empty(),
    }
}

/// `path` with `part` joined to it, as `Path::join` does it on Unix: an absolute `part`
/// replaces the path; otherwise a `/` separates the two unless `path` is empty or already
/// ends in one.
pub open spec fn joined_path(path: Seq<char>, part: Seq<char>) -> Seq<char> {
    if part.len() > 0 && part[0] == '/' {
        part
    } else if path.len() > 0 && path.last() != '/' {
        path + seq!['/'] + part
    } else {
        path + part
    }
}

/// The file `name` in the `.kilocode` directory under `home`.
pub open spec fn kilo_file_path(home: Seq<char>, name: Seq<char>) -> Seq<char> {
    joined_path(joined_path(home, ".kilocode"@), name)
}

/// Whether a display line has anything to show: the fields that the Kilo Code JSON
/// protocol defines for each message type.
pub open spec fn kilo_summary(members: Option<Seq<(Seq<char>, Option<Seq<char>>)>>) -> Option<Seq<char>> {
    match string_field(members, "type"@) {
        Some(t) => if (t == "assistant_message"@ || t == "message"@) && string_field(
            members,
            "content"@,
        ) is Some {
            string_field(members, "content"@)
        } else if t == "tool_call"@ && string_field(members, "name"@) is Some {
            Some("[Tool: "@ + string_field(members, "name"@).unwrap() + "]"@)
        } else if t == "tool_result"@ && string_field(members, "name"@) is Some {
            Some("[Tool Result: "@ + string_field(members, "name"@).unwrap() + "]"@)
        } else if t == "error"@ && string_field(members, "message"@) is Some {
            Some("[Error] "@ + string_field(members, "message"@).unwrap())
        } else {
            None
        },
        None => None,
    }
}

/// What shows a message that has no summary: the whole JSON value, pretty-printed, or a
/// placeholder when it cannot be printed.
pub open spec fn kilo_fallback(pretty: Option<Seq<char>>) -> Seq<char> {
    match pretty {
        Some(p) => p,
        None => "[Unknown Kilo message]"@,
    }
}

/// How a Kilo Code JSON message shows as one line of the log.
pub open spec fn kilo_display(members: Option<Seq<(Seq<char>, Option<Seq<char>>)>>, pretty: Option<Seq<char>>) -> Seq<char> {
    match kilo_summary(members) {
        Some(s) => s,
        None => kilo_fallback(pretty),
    }
}

/// The environment variables that quiet `npx` and Node for a Kilo Code run.
pub open spec fn kilo_process_env() -> Seq<(Seq<char>, Seq<char>)> {
    seq![
        ("NPM_CONFIG_LOGLEVEL"@, "error"@),
        ("NODE_NO_WARNINGS"@, "1"@),
        ("NO_COLOR"@, "1"@),
    ]
}

/// The home directory of the user who runs this process, as text.
///
/// Calls `dirs::home_dir` and turns the path into text with `to_string_lossy`. Which
/// directory it is depends on the environment (`$HOME`) and the user database, so the
/// contract does not say; it states only what `dirs` documents and its source shows: a home
/// directory that is there is never empty (an empty `$HOME` or an empty entry in the user
/// database gives `None`), and a lossy conversion keeps a non-empty path non-empty.
#[verifier::external_body]
fn home_dir() -> (r: Option<String>)
    ensures
        r matches Some(h) ==> h@.len() > 0,
{
    match dirs::home_dir() {
        Some(p) => Some(p.to_string_lossy().into_owned()),
        None => None,
    }
}

/// `path` with `part` joined to it (see `joined_path`).
pub fn join_path(path: &str, part: &str) -> (r: String)
    ensures
        r@ == joined_path(path@, part@),
{
    let p = crate::text::chars_of(path);
    let q = crate::text::chars_of(part);
    if q.len() > 0 && q[0] == '/' {
        owned(part)
    } else if p.len() > 0 && p[p.len() - 1] != '/' {
        let r = concat3(path, "/", part);
        proof {
            reveal_strlit("/");
        }
        assert("/"@ == seq!['/']);
        r
    } else {
        concat2(path, part)
    }
}

impl KiloCode {
    /// The parameters that the configuration adds: JSON output and automatic mode always,
    /// then the mode, the model and `--yolo` where they are set.
    pub open spec fn flag_params(self) -> Seq<Seq<char>> {
        seq!["--json"@, "--auto"@] + flag_with_value("--mode"@, self.mode) + flag_with_value(
            "--model"@,
            self.model,
        ) + if self.yolo == Some(true) {
            seq!["--yolo"@]
        } else {
            Seq::empty()
        }
    }

    /// The command line of a run, with `extra` arguments at the end: the first word as the
    /// program, the rest as its arguments.
    pub open spec fn spec_command(self, extra: Seq<Seq<char>>) -> Result<(Seq<char>, Seq<Seq<char>>), CommandBuildError> {
        let line = command_line(
            overridden_base(kilo_base_command(), self.cmd),
            overridden_params(self.flag_params(), self.cmd),
            extra,
        );
        if line.len() == 0 {
            Err(CommandBuildError::EmptyCommand)
        } else {
            Ok((line[0], line.drop_first()))
        }
    }

    /// The command builder for this configuration: `npx -y @kilocode/cli@latest` (or the
    /// profile's base command) with `--json --auto`, the mode, the model, `--yolo` when set,
    /// and the profile's additional parameters.
    pub fn build_command_builder(&self) -> (r: Result<CommandBuilder, CommandBuildError>)
        ensures
            r matches Ok(b) && b.base@ == overridden_base(kilo_base_command(), self.cmd)
                && b.param_texts() == overridden_params(self.flag_params(), self.cmd),
    {
        let builder = CommandBuilder::new(owned("npx -y @kilocode/cli@latest"));
        let builder = builder.extend_params(vec![owned("--json"), owned("--auto")]);
        let ghost mut expected: Seq<Seq<char>> = seq!["--json"@, "--auto"@];
        assert(builder.param_texts() == expected);
        let builder = if let Some(mode) = &self.mode {
            builder.extend_params(vec![owned("--mode"), owned(mode.as_str())])
        } else {
            builder
        };
        proof {
            expected = expected + flag_with_value("--mode"@, self.mode);
        }
        assert(builder.param_texts() == expected);
        let builder = if let Some(model) = &self.model {
            builder.extend_params(vec![owned("--model"), owned(model.as_str())])
        } else {
            builder
        };
        proof {
            expected = expected + flag_with_value("--model"@, self.model);
        }
        assert(builder.param_texts() == expected);
        let yolo = match self.yolo {
            Some(y) => y,
            None => false,
        };
        let builder = if yolo {
            builder.extend_params(vec![owned("--yolo")])
        } else {
            builder
        };
        assert(builder.param_texts() == self.flag_params());
        apply_overrides(builder, &self.cmd)
    }

    /// The command of a first run.
    pub fn spawn_command(&self) -> (r: Result<CommandParts, CommandBuildError>)
        ensures
            r is Ok,
            match (r, self.spec_command(Seq::empty())) {
                (Ok(parts), Ok((program, args))) => parts.program@ == program && texts(
                    parts.args@,
                ) == args,
                (Err(e), Err(f)) => e == f,
                _ => false,
            },
    {
        proof {
            lemma_kilo_command_builds(*self, Seq::empty());
        }
        let builder = self.build_command_builder()?;
        builder.build_initial()
    }

    /// The command of a follow-up run: the first run's command with `--continue` at the
    /// end.
    pub fn follow_up_command(&self) -> (r: Result<CommandParts, CommandBuildError>)
        ensures
            r is Ok,
            match (r, self.spec_command(seq!["--continue"@])) {
                (Ok(parts), Ok((program, args))) => parts.program@ == program && texts(
                    parts.args@,
                ) == args,
                (Err(e), Err(f)) => e == f,
                _ => false,
            },
    {
        proof {
            lemma_kilo_command_builds(*self, seq!["--continue"@]);
        }
        let builder = self.build_command_builder()?;
        let extra = vec![owned("--continue")];
        assert(texts(extra@) == seq!["--continue"@]);
        builder.build_follow_up(&extra)
    }

    /// The prompt that a run sends: `prompt` with the configured text appended.
    pub fn combined_prompt(&self, prompt: &str) -> (r: String)
        ensures
            r@ == self.append_prompt.combined(prompt@),
    {
        self.append_prompt.combine_prompt(prompt)
    }

    /// The environment variables that a run sets before the profile's own.
    pub fn process_env() -> (r: Vec<(String, String)>)
        ensures
            r@.map_values(|p: (String, String)| (p.0@, p.1@)) == kilo_process_env(),
    {
        let r = vec![
            (owned("NPM_CONFIG_LOGLEVEL"), owned("error")),
            (owned("NODE_NO_WARNINGS"), owned("1")),
            (owned("NO_COLOR"), owned("1")),
        ];
        assert(r@.map_values(|p: (String, String)| (p.0@, p.1@)) =~= kilo_process_env());
        r
    }

    /// The summary line of a Kilo Code message from its members, if the message type has
    /// one (see `kilo_summary`).
    pub fn summarize_members(members: &Option<Vec<(String, Option<String>)>>) -> (r: Option<
        String,
    >)
        ensures
            opt_chars(r) == kilo_summary(opt_members_chars(*members)),
    {
        let msg_type = find_string_field(members, "type");
        match msg_type {
            None => None,
            Some(t) => {
                if same_text(t.as_str(), "assistant_message") || same_text(t.as_str(), "message") {
                    let content = find_string_field(members, "content");
                    if content.is_some() {
                        return content;
                    }
                }
                if same_text(t.as_str(), "tool_call") {
                    if let Some(name) = find_string_field(members, "name") {
                        return Some(concat3("[Tool: ", name.as_str(), "]"));
                    }
                }
                if same_text(t.as_str(), "tool_result") {
                    if let Some(name) = find_string_field(members, "name") {
                        return Some(concat3("[Tool Result: ", name.as_str(), "]"));
                    }
                }
                if same_text(t.as_str(), "error") {
                    if let Some(message) = find_string_field(members, "message") {
                        return Some(concat2("[Error] ", message.as_str()));
                    }
                }
                None
            },
        }
    }

    /// The line that shows a message without a summary, from its pretty-printed JSON (see
    /// `kilo_fallback`).
    pub fn fallback_text(pretty: Option<String>) -> (r: String)
        ensures
            r@ == kilo_fallback(opt_chars(pretty)),
    {
        match pretty {
            Some(p) => p,
            None => owned("[Unknown Kilo message]"),
        }
    }

    /// How the Kilo Code JSON message in `json_text` shows in the log: the content of an
    /// assistant message, `[Tool: name]` for a tool call, `[Tool Result: name]` for its
    /// result, `[Error] message` for an error, and otherwise the pretty-printed JSON, which
    /// a JSON text always has; only text that is not JSON shows as `[Unknown Kilo message]`.
    pub fn format_kilo_message(json_text: &str) -> (r: String)
        ensures
            r@ == kilo_display(json_object_members(json_text@), json_pretty(json_text@)),
            is_json(json_text@) && kilo_summary(json_object_members(json_text@)) is None
                ==> json_pretty(json_text@) == Some(r@),
            !is_json(json_text@) ==> r@ == "[Unknown Kilo message]"@,
    {
        let members = object_members(json_text);
        match Self::summarize_members(&members) {
            Some(s) => s,
            None => Self::fallback_text(pretty_json(json_text)),
        }
    }

    /// The log line for one line of the agent's output, if it shows at all: nothing for a
    /// blank line; the formatted message for a JSON line; the trimmed line otherwise.
    pub open spec fn spec_output_line(line: Seq<char>) -> Option<Seq<char>> {
        let t = crate::text::trim(line);
        if t.len() == 0 {
            None
        } else if is_json(t) {
            Some(kilo_display(json_object_members(t), json_pretty(t)))
        } else {
            Some(t)
        }
    }

    /// The log line for one line of the agent's output (see `spec_output_line`).
    pub fn output_line(line: &str) -> (r: Option<String>)
        ensures
            opt_chars(r) == Self::spec_output_line(line@),
            crate::text::trim(line@).len() > 0 ==> r is Some,
            crate::text::trim(line@).len() > 0 && is_json(crate::text::trim(line@)) ==> opt_chars(r)
                == Some(
                kilo_display(
                    json_object_members(crate::text::trim(line@)),
                    json_pretty(crate::text::trim(line@)),
                ),
            ),
    {
        let trimmed = crate::text::trim_str(line);
        if trimmed.as_str().unicode_len() == 0 {
            None
        } else if crate::json::parses_as_json(trimmed.as_str()) {
            Some(Self::format_kilo_message(trimmed.as_str()))
        } else {
            Some(trimmed)
        }
    }

    /// Where a file named `name` lies in the `.kilocode` directory under `home`.
    pub fn kilo_file_in(home: &str, name: &str) -> (r: String)
        ensures
            r@ == kilo_file_path(home@, name@),
    {
        let dir = join_path(home, ".kilocode");
        join_path(dir.as_str(), name)
    }

    /// Where the MCP configuration lies under `home`: `.kilocode/config.json`.
    pub fn mcp_config_path_in(home: &str) -> (r: String)
        ensures
            r@ == kilo_file_path(home@, "config.json"@),
    {
        Self::kilo_file_in(home, "config.json")
    }

    /// The files whose presence shows an installation, under `home`:
    /// `.kilocode/installation_id`, and `.kilocode/config.json` (the MCP configuration).
    pub fn availability_files_in(home: &str) -> (r: (String, String))
        ensures
            r.0@ == kilo_file_path(home@, "installation_id"@),
            r.1@ == kilo_file_path(home@, "config.json"@),
    {
        (Self::kilo_file_in(home, "installation_id"), Self::mcp_config_path_in(home))
    }

    /// The MCP configuration file of the user running this process, when there is a home
    /// directory.
    pub fn default_mcp_config_path(&self) -> (r: Option<String>)
        ensures
            r matches Some(p) ==> exists|home: Seq<char>|
                home.len() > 0 && p@ == #[trigger] kilo_file_path(home, "config.json"@),
    {
        match home_dir() {
            Some(home) => {
                let p = Self::mcp_config_path_in(home.as_str());
                assert(home@.len() > 0 && p@ == kilo_file_path(home@, "config.json"@));
                Some(p)
            },
            None => None,
        }
    }

    /// Whether Kilo Code is installed and logged in, from its files: logged in when
    /// `installation_id` exists and its modification time (seconds since the Unix epoch)
    /// could be read, with that time; installed when `installation_id` or the configuration
    /// file exists otherwise; not found when neither does.
    pub fn availability_from(
        installation_indicator_found: bool,
        installation_modified_secs: Option<i64>,
        config_found: bool,
    ) -> (r: AvailabilityInfo)
        ensures
            (installation_indicator_found && installation_modified_secs is Some) ==> (r
                == (AvailabilityInfo::LoginDetected {
                last_auth_timestamp: installation_modified_secs.unwrap(),
            })),
            (installation_indicator_found && installation_modified_secs is None) ==> (r
                is InstallationFound),
            (!installation_indicator_found && config_found) ==> (r is InstallationFound),
            (!installation_indicator_found && !config_found) ==> (r is NotFound),
    {
        if installation_indicator_found {
            match installation_modified_secs {
                Some(t) => AvailabilityInfo::LoginDetected { last_auth_timestamp: t },
                None => AvailabilityInfo::InstallationFound,
            }
        } else if config_found {
            AvailabilityInfo::InstallationFound
        } else {
            AvailabilityInfo::NotFound
        }
    }
}


/// A Kilo Code command always builds: whatever the overrides, `--json` and `--auto` give the
/// command line words, so it is never empty.
pub proof fn lemma_kilo_command_builds(kilo: KiloCode, extra: Seq<Seq<char>>)
    ensures
        kilo.spec_command(extra) is Ok,
{
    let line = command_line(
        overridden_base(kilo_base_command(), kilo.cmd),
        overridden_params(kilo.flag_params(), kilo.cmd),
        extra,
    );
    let params = overridden_params(kilo.flag_params(), kilo.cmd);
    assert(params[0] == kilo.flag_params()[0]);
    assert(line.len() >= params.len());
}

/// A follow-up run runs the same program as a first run, with the same arguments and
/// `--continue` after them.
pub proof fn lemma_follow_up_extends_initial(kilo: KiloCode)
    ensures
        kilo.spec_command(Seq::empty()) matches Ok((program, args)) && kilo.spec_command(
            seq!["--continue"@],
        ) == Ok::<(Seq<char>, Seq<Seq<char>>), CommandBuildError>(
            (program, args.push("--continue"@)),
        ),
{
    lemma_kilo_command_builds(kilo, Seq::empty());
    let base = overridden_base(kilo_base_command(), kilo.cmd);
    let params = overridden_params(kilo.flag_params(), kilo.cmd);
    let first = command_line(base, params, Seq::empty());
    let second = command_line(base, params, seq!["--continue"@]);
    assert(first.len() > 0) by {
        lemma_kilo_command_builds(kilo, Seq::empty());
    }
    assert(second == first.push("--continue"@));
    assert(second.drop_first() == first.drop_first().push("--continue"@));
}


/// Every non-blank line of output is logged, and how: a JSON line shows as its message
/// (the message's summary, or else its pretty-printed JSON), any other line as itself
/// trimmed; only blank lines are left out.
pub proof fn lemma_output_line_logs_every_nonblank_line(line: Seq<char>)
    ensures
        crate::text::trim(line).len() == 0 ==> KiloCode::spec_output_line(line) is None,
        crate::text::trim(line).len() > 0 ==> KiloCode::spec_output_line(line) is Some,
        crate::text::trim(line).len() > 0 && is_json(crate::text::trim(line))
            ==> KiloCode::spec_output_line(line) == Some(
            kilo_display(
                json_object_members(crate::text::trim(line)),
                json_pretty(crate::text::trim(line)),
            ),
        ),
        crate::text::trim(line).len() > 0 && !is_json(crate::text::trim(line))
            ==> KiloCode::spec_output_line(line) == Some(crate::text::trim(line)),
{
}

/// A message shows as its summary where it has one, and otherwise as its pretty-printed
/// JSON (or the placeholder when there is none).
pub proof fn lemma_display_prefers_summary(
    members: Option<Seq<(Seq<char>, Option<Seq<char>>)>>,
    pretty: Option<Seq<char>>,
)
    ensures
        kilo_summary(members) matches Some(s) ==> kilo_display(members, pretty) == s,
        kilo_summary(members) is None && pretty is Some ==> kilo_display(members, pretty)
            == pretty.unwrap(),
        kilo_summary(members) is None && pretty is None ==> kilo_display(members, pretty)
            == "[Unknown Kilo message]"@,
{
}

/// What each message type shows, in terms of the message's string members: an assistant
/// message or a message shows its whole `content`, a tool call `[Tool: name]`, a tool result
/// `[Tool Result: name]`, an error `[Error] message`; a message without a string `type` has
/// no summary.
pub proof fn lemma_summary_by_type(members: Option<Seq<(Seq<char>, Option<Seq<char>>)>>)
    ensures
        (string_field(members, "type"@) == Some("assistant_message"@) || string_field(
            members,
            "type"@,
        ) == Some("message"@)) && string_field(members, "content"@) is Some ==> kilo_summary(
            members,
        ) == string_field(members, "content"@),
        string_field(members, "type"@) == Some("tool_call"@) && string_field(members, "name"@) is Some
            ==> kilo_summary(members) == Some(
            "[Tool: "@ + string_field(members, "name"@).unwrap() + "]"@,
        ),
        string_field(members, "type"@) == Some("tool_result"@) && string_field(members, "name"@) is Some
            ==> kilo_summary(members) == Some(
            "[Tool Result: "@ + string_field(members, "name"@).unwrap() + "]"@,
        ),
        string_field(members, "type"@) == Some("error"@) && string_field(members, "message"@)
            is Some ==> kilo_summary(members) == Some(
            "[Error] "@ + string_field(members, "message"@).unwrap(),
        ),
        string_field(members, "type"@) is None ==> kilo_summary(members) is None,
{
    assert("tool_call"@.len() == 9 && "tool_result"@.len() == 11 && "error"@.len() == 5
        && "message"@.len() == 7 && "assistant_message"@.len() == 17) by {
        reveal_strlit("tool_call");
        reveal_strlit("tool_result");
        reveal_strlit("error");
        reveal_strlit("message");
        reveal_strlit("assistant_message");
    }
}

/// Where each flag stands among the parameters: `--json` and `--auto` first; then
/// `--mode` and the mode, exactly when a mode is set; then `--model` and the model, exactly
/// when a model is set, whatever the mode; then `--yolo`, exactly when `yolo` is `true`.
pub proof fn lemma_flag_layout(kilo: KiloCode)
    ensures
        ({
            let fp = kilo.flag_params();
            let mc: int = if kilo.mode is Some { 2 } else { 0 };
            let dc: int = if kilo.model is Some { 2 } else { 0 };
            let yc: int = if kilo.yolo == Some(true) { 1 } else { 0 };
            &&& fp.len() == 2 + mc + dc + yc
            &&& fp[0] == "--json"@
            &&& fp[1] == "--auto"@
            &&& (kilo.mode matches Some(m) ==> fp[2] == "--mode"@ && fp[3] == m@)
            &&& (kilo.model matches Some(m) ==> fp[2 + mc] == "--model"@ && fp[3 + mc] == m@)
            &&& (kilo.yolo == Some(true) ==> fp[2 + mc + dc] == "--yolo"@)
        }),
{
}

/// The MCP configuration path lies under the home directory it is made from: it begins
/// with the home directory and is longer than the bare `.kilocode/config.json`, so it is
/// never that path on its own.
pub proof fn lemma_config_path_under_home(home: Seq<char>)
    requires
        home.len() > 0,
    ensures
        kilo_file_path(home, "config.json"@).len() > ".kilocode/config.json"@.len(),
        kilo_file_path(home, "config.json"@).subrange(0, home.len() as int) == home,
{
    reveal_strlit(".kilocode");
    reveal_strlit("config.json");
    reveal_strlit(".kilocode/config.json");
    let d = joined_path(home, ".kilocode"@);
    assert(d.subrange(0, home.len() as int) == home);
    assert(d.len() >= home.len() + 9);
    let p = joined_path(d, "config.json"@);
    assert(p.subrange(0, d.len() as int) == d);
    assert(p.subrange(0, home.len() as int) == d.subrange(0, home.len() as int));
}

} // verus!
