use vstd::prelude::*;

use crate::json::{compact_json, is_json, json_compact, opt_chars, parses_as_json};
use crate::text::{
    complete_lines, joined_lines, lemma_complete_lines_split, lemma_trimmed_nonblank_concat,
    nonblank_complete_lines, owned, pending_line, pending_tail, trimmed_nonblank,
};

verus! {

/// A JSON Patch document, as the `json-patch` crate holds it.
#[verifier::external_type_specification]
#[verifier::external_body]
pub struct ExPatch(json_patch::Patch);

/// One operation of a JSON Patch document, as the `json-patch` crate holds it.
#[verifier::external_type_specification]
#[verifier::external_body]
pub struct ExPatchOperation(json_patch::PatchOperation);

/// A message in an execution's log stream.
pub enum LogMsg {
    /// A chunk of the agent's standard output.
    Stdout(String),
    /// A chunk of the agent's standard error.
    Stderr(String),
    /// A change to the normalized conversation.
    JsonPatch(json_patch::Patch),
    /// The agent's session id.
    SessionId(String),
    /// The stream is ready.
    Ready,
    /// The execution has finished.
    Finished,
}

/// The kind of a normalized conversation entry.
#[derive(PartialEq, Eq, Structural)]
pub enum NormalizedEntryType {
    UserMessage,
    AssistantMessage,
    SystemMessage,
    Thinking,
}

/// One entry of the normalized conversation.
pub struct NormalizedEntry {
    /// When the entry was made, if known.
    pub timestamp: Option<String>,
    pub entry_type: NormalizedEntryType,
    pub content: String,
}

/// A patch that adds `entry` to the conversation at position `index`.
pub struct EntryPatch {
    pub index: usize,
    pub entry: NormalizedEntry,
}

/// Hands out the positions of new conversation entries, one after another.
pub struct EntryIndexProvider {
    next_index: usize,
}

impl EntryIndexProvider {
    /// The position that `next` hands out next.
    pub closed spec fn peek(self) -> usize {
        self.next_index
    }

    /// A provider whose first position is `start` (the number of entries there already are).
    pub fn start_from(start: usize) -> (p: Self)
        ensures
            p.peek() == start,
    {
        EntryIndexProvider { next_index: start }
    }

    /// The next position; the one after it follows, wrapping around at the top of `usize`
    /// as an atomic counter does.
    pub fn next(&mut self) -> (i: usize)
        ensures
            i == old(self).peek(),
            final(self).peek() == (if i == usize::MAX {
                0
            } else {
                (i + 1) as usize
            }),
    {
        let i = self.next_index;
        self.next_index = if i == usize::MAX {
            0
        } else {
            i + 1
        };
        i
    }
}

/// The content of the system message for a JSON value: its compact JSON, or a placeholder
/// when it cannot be printed.
pub open spec fn system_message_content(compact: Option<Seq<char>>) -> Seq<char> {
    match compact {
        Some(c) => c,
        None => "Unknown"@,
    }
}

/// The lines of output `text` to read as JSON: its complete lines, trimmed, the blank ones
/// left out.
pub open spec fn json_lines(text: Seq<char>) -> Seq<Seq<char>> {
    trimmed_nonblank(complete_lines(text))
}

/// Turns the agent's JSON output into conversation entries, each complete line once.
pub struct KiloLogProcessor {
    /// The line that the output so far has begun but not ended.
    buffer: String,
    /// Everything the agent has written to standard output so far.
    received: Ghost<Seq<char>>,
}

impl KiloLogProcessor {
    /// The buffer holds exactly the line that the output so far leaves open.
    #[verifier::type_invariant]
    spec fn holds_open_line(self) -> bool {
        self.buffer@ == pending_line(self.received@)
    }

    /// Everything the agent has written to standard output so far.
    pub closed spec fn received(self) -> Seq<char> {
        self.received@
    }

    /// The line that the output so far has begun but not ended.
    pub closed spec fn open_line(self) -> Seq<char> {
        self.buffer@
    }

    /// A processor that has seen no output.
    pub fn new() -> (p: Self)
        ensures
            p.received() == Seq::<char>::empty(),
            p.open_line() == Seq::<char>::empty(),
    {
        KiloLogProcessor { buffer: String::new(), received: Ghost(Seq::empty()) }
    }

    /// Takes the next message of the log stream. For a chunk of standard output, gives the
    /// lines to read as JSON that this chunk completes (the open line with the chunk after
    /// it, cut into lines, trimmed, blank ones left out), and keeps the line that is still
    /// open. Every line of the output is so given exactly once: the lines given so far are
    /// always `json_lines` of all the output so far. Any other message changes nothing and
    /// gives no line.
    pub fn push_message(&mut self, msg: &LogMsg) -> (lines: Vec<String>)
        ensures
            final(self).open_line() == pending_line(final(self).received()),
            match msg {
                LogMsg::Stdout(chunk) => {
                    &&& final(self).received() == old(self).received() + chunk@
                    &&& lines@.map_values(|l: String| l@) == json_lines(
                        old(self).open_line() + chunk@,
                    )
                    &&& json_lines(final(self).received()) == json_lines(old(self).received())
                        + lines@.map_values(|l: String| l@)
                },
                _ => {
                    &&& final(self).received() == old(self).received()
                    &&& final(self).open_line() == old(self).open_line()
                    &&& lines@.len() == 0
                },
            },
    {
        proof {
            use_type_invariant(&*self);
        }
        match msg {
            LogMsg::Stdout(chunk) => {
                let ghost before = self.received@;
                let mut text = crate::text::owned(self.buffer.as_str());
                text.append(chunk.as_str());
                let lines = nonblank_complete_lines(text.as_str());
                let tail = pending_tail(text.as_str());
                proof {
                    lemma_complete_lines_split(before, chunk@);
                    lemma_trimmed_nonblank_concat(
                        complete_lines(before),
                        complete_lines(pending_line(before) + chunk@),
                    );
                }
                *self = KiloLogProcessor { buffer: tail, received: Ghost(before + chunk@) };
                lines
            },
            _ => Vec::new(),
        }
    }

    /// The conversation entry for the JSON value in `json_text`: a system message holding
    /// the value as compact JSON, at the provider's next position.
    pub fn normalize_entries(json_text: &str, entry_index_provider: &mut EntryIndexProvider) -> (r:
        Vec<EntryPatch>)
        ensures
            r@.len() == 1,
            r@[0].index == old(entry_index_provider).peek(),
            r@[0].entry.timestamp is None,
            r@[0].entry.entry_type == NormalizedEntryType::SystemMessage,
            r@[0].entry.content@ == system_message_content(json_compact(json_text@)),
            is_json(json_text@) ==> json_compact(json_text@) == Some(r@[0].entry.content@),
            !is_json(json_text@) ==> r@[0].entry.content@ == "Unknown"@,
            final(entry_index_provider).peek() == (if old(entry_index_provider).peek()
                == usize::MAX {
                0
            } else {
                (old(entry_index_provider).peek() + 1) as usize
            }),
    {
        let content = match compact_json(json_text) {
            Some(c) => c,
            None => owned("Unknown"),
        };
        let entry = NormalizedEntry {
            timestamp: None,
            entry_type: NormalizedEntryType::SystemMessage,
            content,
        };
        let index = entry_index_provider.next();
        let mut patches = Vec::new();
        patches.push(EntryPatch { index, entry });
        patches
    }

    /// The conversation entries for one line of output: those of its JSON value, or none
    /// when the line is not JSON (then no position is used).
    pub fn normalize_line(line: &str, entry_index_provider: &mut EntryIndexProvider) -> (r: Vec<
        EntryPatch,
    >)
        ensures
            !is_json(line@) ==> r@.len() == 0 && final(entry_index_provider).peek() == old(
                entry_index_provider,
            ).peek(),
            is_json(line@) ==> {
                &&& r@.len() == 1
                &&& r@[0].index == old(entry_index_provider).peek()
                &&& r@[0].entry.timestamp is None
                &&& r@[0].entry.entry_type == NormalizedEntryType::SystemMessage
                &&& r@[0].entry.content@ == system_message_content(json_compact(line@))
                &&& json_compact(line@) == Some(r@[0].entry.content@)
                &&& final(entry_index_provider).peek() == (if old(entry_index_provider).peek()
                    == usize::MAX {
                    0
                } else {
                    (old(entry_index_provider).peek() + 1) as usize
                })
            },
    {
        if parses_as_json(line) {
            Self::normalize_entries(line, entry_index_provider)
        } else {
            Vec::new()
        }
    }
}

/// The lines given for a run of output chunks, and the line they leave open, starting with
/// nothing open.
pub open spec fn lines_of_chunks(chunks: Seq<Seq<char>>) -> (Seq<Seq<char>>, Seq<char>)
    decreases chunks.len(),
{
    if chunks.len() == 0 {
        (Seq::empty(), Seq::empty())
    } else {
        let (given, open) = lines_of_chunks(chunks.drop_last());
        let text = open + chunks.last();
        (given + json_lines(text), pending_line(text))
    }
}

/// However the output is cut into chunks, the processor gives each of its lines exactly
/// once, in order: the lines given for all the chunks are the lines of all the output, and
/// what stays open is the output's open line.
pub proof fn lemma_each_line_once(chunks: Seq<Seq<char>>)
    ensures
        lines_of_chunks(chunks).0 == json_lines(joined_lines(chunks)),
        lines_of_chunks(chunks).1 == pending_line(joined_lines(chunks)),
    decreases chunks.len(),
{
    if chunks.len() > 0 {
        let prev = chunks.drop_last();
        lemma_each_line_once(prev);
        let all = joined_lines(prev);
        let c = chunks.last();
        lemma_complete_lines_split(all, c);
        lemma_trimmed_nonblank_concat(complete_lines(all), complete_lines(pending_line(all) + c));
    }
}

} // verus!
