//! The records exchanged with the assistant: providers, messages, the
//! context of a conversation and what an inference returns.

use crate::text::{
    decimal, decimal_string, holds, join, join_text, rounded_ratio, texts, two_decimals,
    two_decimals_string, GIB, KIB, MIB,
};
use crate::strings::text_contains;
use std::collections::HashMap;
use vstd::prelude::*;
use vstd::string::*;

verus! {

/// The providers of models.
#[derive(Debug, Clone, Copy, PartialEq, Eq, Structural)]
pub enum ModelProvider {
    TransformerJS,
    Ollama,
    OpenAICompatible,
    LlamaCpp,
    MLX,
}

/// What the assistant is asked to do.
#[derive(Debug, Clone, Copy, PartialEq, Eq, Structural)]
pub enum AIMode {
    QA,
    Summarize,
    Agent,
}

/// Who a message is from.
#[derive(Debug, Clone, Copy, PartialEq, Eq, Structural)]
pub enum MessageRole {
    User,
    Assistant,
    System,
}

/// A message of a conversation.
#[derive(Debug, Clone)]
pub struct ChatMessage {
    pub id: String,
    pub role: MessageRole,
    pub content: String,
    pub timestamp: i64,
    pub context_paths: Option<Vec<String>>,
    pub is_streaming: Option<bool>,
    pub error: Option<String>,
}

/// A file and its size.
#[derive(Debug, Clone)]
pub struct FileInfo {
    pub path: String,
    pub size: u64,
}

/// The outcome of a scan, in short.
#[derive(Debug, Clone)]
pub struct ScanSummary {
    pub total_files: u64,
    pub total_size: u64,
    pub largest_files: Vec<FileInfo>,
    pub file_types: HashMap<String, u64>,
    pub scanned_at: i64,
}

/// What of the file system a conversation is about.
#[derive(Debug, Clone)]
pub struct FileSystemContext {
    pub current_path: String,
    pub selected_paths: Vec<String>,
    pub scan_data: Option<ScanSummary>,
}

/// How many tokens an inference took.
#[derive(Debug, Clone, Copy)]
pub struct TokenUsage {
    pub prompt_tokens: u32,
    pub completion_tokens: u32,
    pub total_tokens: u32,
}

/// What an inference returns.
#[derive(Debug, Clone)]
pub struct InferenceResponse {
    pub message: ChatMessage,
    pub is_complete: bool,
    pub usage: Option<TokenUsage>,
    pub inference_time_ms: Option<u64>,
}

/// The kinds of failure of an inference.
#[derive(Debug, Clone, Copy, PartialEq, Eq, Structural)]
pub enum AIErrorType {
    ModelNotFound,
    ProviderUnavailable,
    InferenceFailed,
    OutOfMemory,
    NetworkError,
    InvalidConfiguration,
    ContextTooLarge,
}

impl AIErrorType {
    /// The name of the kind.
    pub open spec fn name_text(self) -> Seq<char> {
        match self {
            AIErrorType::ModelNotFound => "ModelNotFound"@,
            AIErrorType::ProviderUnavailable => "ProviderUnavailable"@,
            AIErrorType::InferenceFailed => "InferenceFailed"@,
            AIErrorType::OutOfMemory => "OutOfMemory"@,
            AIErrorType::NetworkError => "NetworkError"@,
            AIErrorType::InvalidConfiguration => "InvalidConfiguration"@,
            AIErrorType::ContextTooLarge => "ContextTooLarge"@,
        }
    }

    /// The name of the kind.
    pub fn name(&self) -> (s: &'static str)
        ensures
            s@ == self.name_text(),
    {
        match self {
            AIErrorType::ModelNotFound => "ModelNotFound",
            AIErrorType::ProviderUnavailable => "ProviderUnavailable",
            AIErrorType::InferenceFailed => "InferenceFailed",
            AIErrorType::OutOfMemory => "OutOfMemory",
            AIErrorType::NetworkError => "NetworkError",
            AIErrorType::InvalidConfiguration => "InvalidConfiguration",
            AIErrorType::ContextTooLarge => "ContextTooLarge",
        }
    }

    /// A failure in one line: the name of its kind, a colon, the message.
    pub fn describe(&self, message: &str) -> (s: String)
        ensures
            s@ == self.name_text() + ": "@ + message@,
    {
        let mut s = String::from_str(self.name());
        s.append(": ");
        s.append(message);
        s
    }
}

impl TokenUsage {
    /// The usage of an inference that took `prompt_tokens` to read and
    /// `completion_tokens` to answer, if their sum can be held.
    pub fn counted(prompt_tokens: u32, completion_tokens: u32) -> (usage: Option<TokenUsage>)
        ensures
            match usage {
                Some(u) => u.prompt_tokens == prompt_tokens && u.completion_tokens
                    == completion_tokens && u.total_tokens == prompt_tokens + completion_tokens,
                None => prompt_tokens + completion_tokens > u32::MAX,
            },
    {
        match prompt_tokens.checked_add(completion_tokens) {
            Some(total_tokens) => Some(TokenUsage { prompt_tokens, completion_tokens, total_tokens }),
            None => None,
        }
    }
}

/// A message in the form in which the providers take it: the name of a
/// role, and the content.
#[derive(Debug, Clone)]
pub struct WireMessage {
    pub role: String,
    pub content: String,
}

/// An entry of the directory that a conversation is about.
#[derive(Debug, Clone)]
pub struct VisibleFile {
    pub name: String,
    pub size: u64,
    pub is_dir: bool,
    /// The number of items in a directory, where it is known.
    pub file_count: Option<u64>,
}

/// The most entries of a directory that are listed for the assistant.
pub const VISIBLE_LIMIT: usize = 50;

/// The name of a role, as the providers know it.
pub open spec fn role_text(role: MessageRole) -> Seq<char> {
    match role {
        MessageRole::User => "user"@,
        MessageRole::Assistant => "assistant"@,
        MessageRole::System => "system"@,
    }
}

/// The name of a role, as the providers know it.
pub fn role_name(role: MessageRole) -> (name: &'static str)
    ensures
        name@ == role_text(role),
{
    match role {
        MessageRole::User => "user",
        MessageRole::Assistant => "assistant",
        MessageRole::System => "system",
    }
}

/// A message as a pair of the name of its role and its content.
pub open spec fn wire_pairs(messages: Seq<WireMessage>) -> Seq<(Seq<char>, Seq<char>)> {
    messages.map_values(|m: WireMessage| (m.role@, m.content@))
}

/// One message of a prompt in ChatML.
pub open spec fn chatml_turn(role: MessageRole, content: Seq<char>) -> Seq<char> {
    "<|im_start|>"@ + role_text(role) + "\n"@ + content + "<|im_end|>\n"@
}

/// The messages of a conversation in ChatML, one after the other.
pub open spec fn chatml_turns(messages: Seq<ChatMessage>) -> Seq<char>
    decreases messages.len(),
{
    if messages.len() == 0 {
        Seq::empty()
    } else {
        chatml_turns(messages.drop_last()) + chatml_turn(
            messages.last().role,
            messages.last().content@,
        )
    }
}

/// The prompt for a conversation in ChatML: its messages, and the opening
/// of the answer.
pub open spec fn chatml_text(messages: Seq<ChatMessage>) -> Seq<char> {
    chatml_turns(messages) + "<|im_start|>assistant\n"@
}

/// Writes the prompt for a conversation in ChatML.
pub fn chatml_prompt(messages: &Vec<ChatMessage>) -> (prompt: String)
    ensures
        prompt@ == chatml_text(messages@),
{
    let mut prompt = String::new();
    let n: usize = messages.len();
    let mut i: usize = 0;
    assert(messages@.take(0).len() == 0);
    while i < n
        invariant
            n == messages.len(),
            i <= n,
            prompt@ == chatml_turns(messages@.take(i as int)),
        decreases n - i,
    {
        proof {
            let more = messages@.take(i + 1);
            assert(more.drop_last() =~= messages@.take(i as int));
            assert(more.last() == messages@[i as int]);
        }
        let ghost before = prompt@;
        prompt.append("<|im_start|>");
        prompt.append(role_name(messages[i].role));
        prompt.append("\n");
        prompt.append(messages[i].content.as_str());
        prompt.append("<|im_end|>\n");
        assert(prompt@ =~= before + chatml_turn(messages@[i as int].role, messages@[i as int].content@));
        i = i + 1;
    }
    assert(messages@.take(n as int) =~= messages@);
    prompt.append("<|im_start|>assistant\n");
    prompt
}

/// How far the merging of a conversation has come: the system prompts
/// that wait for the first message of the user, and the messages made.
pub struct Merging {
    pub pending: Seq<Seq<char>>,
    pub made: Seq<(Seq<char>, Seq<char>)>,
}

/// The content of the first message of the user, with the system prompts
/// that waited for it in front.
pub open spec fn with_system_prompts(pending: Seq<Seq<char>>, content: Seq<char>) -> Seq<char> {
    join_text(pending, "\n\n"@) + "\n\n---\n\n"@ + content
}

/// The merging once one more message is taken in. A system prompt waits;
/// the first message made, if it is the user's, takes the system prompts
/// that wait in front of its content; any other message is made as it is.
pub open spec fn merged_with(state: Merging, role: MessageRole, content: Seq<char>) -> Merging {
    match role {
        MessageRole::System => Merging { pending: state.pending.push(content), ..state },
        MessageRole::User => if state.pending.len() > 0 && state.made.len() == 0 {
            Merging {
                pending: Seq::empty(),
                made: state.made.push(("user"@, with_system_prompts(state.pending, content))),
            }
        } else {
            Merging { made: state.made.push(("user"@, content)), ..state }
        },
        MessageRole::Assistant => Merging {
            made: state.made.push(("assistant"@, content)),
            ..state
        },
    }
}

/// The merging of a whole conversation.
pub open spec fn merging_of(messages: Seq<ChatMessage>) -> Merging
    decreases messages.len(),
{
    if messages.len() == 0 {
        Merging { pending: Seq::empty(), made: Seq::empty() }
    } else {
        merged_with(
            merging_of(messages.drop_last()),
            messages.last().role,
            messages.last().content@,
        )
    }
}

/// Puts a conversation into the form in which roles take turns: there is
/// no message of the system, and what the system said before the user's
/// first message stands in front of that message.
pub fn alternating_messages(messages: &Vec<ChatMessage>) -> (made: Vec<WireMessage>)
    ensures
        wire_pairs(made@) == merging_of(messages@).made,
{
    let mut made: Vec<WireMessage> = Vec::new();
    let mut pending: Vec<String> = Vec::new();
    assert(wire_pairs(made@) =~= Seq::empty());
    assert(texts(pending@) =~= Seq::empty());
    let n: usize = messages.len();
    let mut i: usize = 0;
    assert(messages@.take(0).len() == 0);
    while i < n
        invariant
            n == messages.len(),
            i <= n,
            wire_pairs(made@) == merging_of(messages@.take(i as int)).made,
            texts(pending@) == merging_of(messages@.take(i as int)).pending,
        decreases n - i,
    {
        proof {
            let more = messages@.take(i + 1);
            assert(more.drop_last() =~= messages@.take(i as int));
            assert(more.last() == messages@[i as int]);
        }
        let ghost made_before = wire_pairs(made@);
        let ghost pending_before = texts(pending@);
        let message = &messages[i];
        match message.role {
            MessageRole::System => {
                pending.push(message.content.clone());
                assert(texts(pending@) =~= pending_before.push(message.content@));
            },
            MessageRole::User => {
                if pending.len() > 0 && made.len() == 0 {
                    let mut content = join(&pending, "\n\n");
                    content.append("\n\n---\n\n");
                    content.append(message.content.as_str());
                    pending = Vec::new();
                    assert(texts(pending@) =~= Seq::empty());
                    made.push(WireMessage { role: String::from_str("user"), content });
                    assert(wire_pairs(made@) =~= made_before.push(
                        ("user"@, with_system_prompts(pending_before, message.content@)),
                    ));
                } else {
                    made.push(
                        WireMessage {
                            role: String::from_str("user"),
                            content: message.content.clone(),
                        },
                    );
                    assert(wire_pairs(made@) =~= made_before.push(("user"@, message.content@)));
                }
            },
            MessageRole::Assistant => {
                made.push(
                    WireMessage {
                        role: String::from_str("assistant"),
                        content: message.content.clone(),
                    },
                );
                assert(wire_pairs(made@) =~= made_before.push(("assistant"@, message.content@)));
            },
        }
        i = i + 1;
    }
    assert(messages@.take(n as int) =~= messages@);
    made
}

/// A conversation as it is, each message under the name of its role.
pub fn plain_messages(messages: &Vec<ChatMessage>) -> (made: Vec<WireMessage>)
    ensures
        wire_pairs(made@) == messages@.map_values(
            |m: ChatMessage| (role_text(m.role), m.content@),
        ),
{
    let mut made: Vec<WireMessage> = Vec::new();
    let n: usize = messages.len();
    let mut i: usize = 0;
    while i < n
        invariant
            n == messages.len(),
            i <= n,
            made.len() == i,
            forall|k: int|
                0 <= k < i ==> (#[trigger] made@[k]).role@ == role_text(messages@[k].role)
                    && made@[k].content@ == messages@[k].content@,
        decreases n - i,
    {
        made.push(
            WireMessage {
                role: String::from_str(role_name(messages[i].role)),
                content: messages[i].content.clone(),
            },
        );
        i = i + 1;
    }
    assert(wire_pairs(made@) =~= messages@.map_values(
        |m: ChatMessage| (role_text(m.role), m.content@),
    ));
    made
}

/// Whether a conversation holds a message of the system.
pub fn has_system_message(messages: &Vec<ChatMessage>) -> (r: bool)
    ensures
        r == exists|k: int|
            0 <= k < messages@.len() && (#[trigger] messages@[k]).role == MessageRole::System,
{
    let n: usize = messages.len();
    let mut i: usize = 0;
    while i < n
        invariant
            n == messages.len(),
            i <= n,
            forall|k: int| 0 <= k < i ==> (#[trigger] messages@[k]).role != MessageRole::System,
        decreases n - i,
    {
        if messages[i].role == MessageRole::System {
            return true;
        }
        i = i + 1;
    }
    false
}

/// The size of a file as the assistant is told it: in bytes below one
/// kibibyte, and else with two decimals in the largest of KB, MB and GB that
/// does not exceed it.
pub open spec fn told_size(size: nat) -> Seq<char> {
    if size >= GIB {
        two_decimals(crate::text::round_half_even(size * 100, GIB as nat)) + " GB"@
    } else if size >= MIB {
        two_decimals(crate::text::round_half_even(size * 100, MIB as nat)) + " MB"@
    } else if size >= KIB {
        two_decimals(crate::text::round_half_even(size * 100, KIB as nat)) + " KB"@
    } else {
        decimal(size) + " B"@
    }
}

/// What the assistant is told an entry is.
pub open spec fn told_kind(file: VisibleFile) -> Seq<char> {
    if file.is_dir {
        match file.file_count {
            Some(count) => "Folder, "@ + decimal(count as nat) + " items"@,
            None => "Folder"@,
        }
    } else {
        "File, "@ + told_size(file.size as nat)
    }
}

/// The line of an entry.
pub open spec fn told_line(file: VisibleFile) -> Seq<char> {
    "- "@ + file.name@ + " ("@ + told_kind(file) + ")\n"@
}

/// The lines of the entries, one after the other.
pub open spec fn told_lines(files: Seq<VisibleFile>) -> Seq<char>
    decreases files.len(),
{
    if files.len() == 0 {
        Seq::empty()
    } else {
        told_lines(files.drop_last()) + told_line(files.last())
    }
}

/// The lines of the selected paths, one after the other.
pub open spec fn selected_lines(paths: Seq<Seq<char>>) -> Seq<char>
    decreases paths.len(),
{
    if paths.len() == 0 {
        Seq::empty()
    } else {
        selected_lines(paths.drop_last()) + "- "@ + paths.last() + "\n"@
    }
}

/// What the assistant is told of the visible entries: the first fifty, and
/// how many more there are.
pub open spec fn visible_text(visible: Seq<VisibleFile>) -> Seq<char> {
    if visible.len() == 0 {
        Seq::empty()
    } else if visible.len() > VISIBLE_LIMIT {
        "\nVisible Files in Current Directory:\n"@ + told_lines(
            visible.take(VISIBLE_LIMIT as int),
        ) + "...and "@ + decimal((visible.len() - VISIBLE_LIMIT) as nat) + " more\n"@
    } else {
        "\nVisible Files in Current Directory:\n"@ + told_lines(visible)
    }
}

/// What the assistant is told of where the user is: the current directory,
/// the selected paths, and the visible entries.
pub open spec fn context_text(
    current_path: Seq<char>,
    selected: Seq<Seq<char>>,
    visible: Seq<VisibleFile>,
) -> Seq<char> {
    "Current Directory: "@ + current_path + "\n"@ + (if selected.len() > 0 {
        "Selected Items:\n"@ + selected_lines(selected)
    } else {
        Seq::empty()
    }) + visible_text(visible)
}

/// The message of the system that carries the context.
pub open spec fn context_message_text(context: Seq<char>) -> Seq<char> {
    "Context Information:\n"@ + context
        + "\nUse this context to answer the user's questions about their files."@
}

fn size_told(size: u64) -> (s: String)
    ensures
        s@ == told_size(size as nat),
{
    if size >= GIB {
        let mut s = two_decimals_string(rounded_ratio(size as u128 * 100, GIB as u128));
        s.append(" GB");
        s
    } else if size >= MIB {
        let mut s = two_decimals_string(rounded_ratio(size as u128 * 100, MIB as u128));
        s.append(" MB");
        s
    } else if size >= KIB {
        let mut s = two_decimals_string(rounded_ratio(size as u128 * 100, KIB as u128));
        s.append(" KB");
        s
    } else {
        let mut s = decimal_string(size as u128);
        s.append(" B");
        s
    }
}

fn line_told(file: &VisibleFile) -> (s: String)
    ensures
        s@ == told_line(*file),
{
    let mut s = String::from_str("- ");
    s.append(file.name.as_str());
    s.append(" (");
    if file.is_dir {
        match file.file_count {
            Some(count) => {
                let mut kind = String::from_str("Folder, ");
                kind.append(decimal_string(count as u128).as_str());
                kind.append(" items");
                s.append(kind.as_str());
            },
            None => {
                s.append("Folder");
            },
        }
    } else {
        let mut kind = String::from_str("File, ");
        kind.append(size_told(file.size).as_str());
        s.append(kind.as_str());
    }
    s.append(")\n");
    s
}

/// Writes what the assistant is told of where the user is.
pub fn context_description(current_path: &str, selected: &Vec<String>, visible: &Vec<VisibleFile>) -> (s:
    String)
    ensures
        s@ == context_text(current_path@, texts(selected@), visible@),
{
    let mut s = String::from_str("Current Directory: ");
    s.append(current_path);
    s.append("\n");
    let ghost head = s@;
    if selected.len() > 0 {
        let mut list = String::new();
        let n: usize = selected.len();
        let mut i: usize = 0;
        assert(texts(selected@).take(0).len() == 0);
        while i < n
            invariant
                n == selected.len(),
                i <= n,
                list@ == selected_lines(texts(selected@).take(i as int)),
            decreases n - i,
        {
            proof {
                let more = texts(selected@).take(i + 1);
                assert(more.drop_last() =~= texts(selected@).take(i as int));
                assert(more.last() == selected@[i as int]@);
            }
            list.append("- ");
            list.append(selected[i].as_str());
            list.append("\n");
            i = i + 1;
        }
        assert(texts(selected@).take(n as int) =~= texts(selected@));
        let mut part = String::from_str("Selected Items:\n");
        part.append(list.as_str());
        s.append(part.as_str());
    } else {
        assert(s@ =~= head + Seq::<char>::empty());
    }
    let ghost middle = s@;
    let total: usize = visible.len();
    if total > 0 {
        let shown: usize = if total > VISIBLE_LIMIT {
            VISIBLE_LIMIT
        } else {
            total
        };
        let mut list = String::new();
        let mut i: usize = 0;
        assert(visible@.take(shown as int).take(0).len() == 0);
        while i < shown
            invariant
                shown <= visible.len(),
                i <= shown,
                list@ == told_lines(visible@.take(shown as int).take(i as int)),
            decreases shown - i,
        {
            proof {
                let all = visible@.take(shown as int);
                let more = all.take(i + 1);
                assert(more.drop_last() =~= all.take(i as int));
                assert(more.last() == visible@[i as int]);
            }
            list.append(line_told(&visible[i]).as_str());
            i = i + 1;
        }
        proof {
            let all = visible@.take(shown as int);
            assert(all.take(shown as int) =~= all);
            if total <= VISIBLE_LIMIT {
                assert(all =~= visible@);
            }
        }
        let mut part = String::from_str("\nVisible Files in Current Directory:\n");
        part.append(list.as_str());
        if total > shown {
            part.append("...and ");
            part.append(decimal_string((total - shown) as u128).as_str());
            part.append(" more\n");
        }
        s.append(part.as_str());
    } else {
        assert(s@ =~= middle + Seq::<char>::empty());
    }
    s
}

/// Writes the message of the system that carries the context.
pub fn context_message(context: &str) -> (m: WireMessage)
    ensures
        m.role@ == "system"@,
        m.content@ == context_message_text(context@),
{
    let mut content = String::from_str("Context Information:\n");
    content.append(context);
    content.append("\nUse this context to answer the user's questions about their files.");
    WireMessage { role: String::from_str("system"), content }
}

/// The number of `/` at the end of a text.
pub open spec fn trailing_slashes(text: Seq<char>) -> nat
    decreases text.len(),
{
    if text.len() == 0 || text.last() != '/' {
        0
    } else {
        1 + trailing_slashes(text.drop_last())
    }
}

/// A text without the `/` at its end.
pub open spec fn without_trailing_slashes(text: Seq<char>) -> Seq<char> {
    text.subrange(0, text.len() - trailing_slashes(text))
}

/// Whether a text ends with a suffix.
pub open spec fn ends_with_text(text: Seq<char>, suffix: Seq<char>) -> bool {
    text.len() >= suffix.len() && text.subrange(text.len() - suffix.len(), text.len() as int)
        == suffix
}

/// The address of the chat completions of an endpoint: the endpoint
/// without the `/` at its end, then `/v1` unless the endpoint names a
/// version already, then `/chat/completions`.
pub open spec fn completions_url_text(endpoint: Seq<char>) -> Seq<char> {
    if ends_with_text(endpoint, "/v1"@) || holds(endpoint, "/v1/"@) {
        without_trailing_slashes(endpoint) + "/chat/completions"@
    } else {
        without_trailing_slashes(endpoint) + "/v1/chat/completions"@
    }
}

/// Takes the `/` from the end of a text.
pub fn trim_trailing_slashes(text: &str) -> (r: &str)
    ensures
        r@ == without_trailing_slashes(text@),
{
    let n: usize = text.unicode_len();
    let mut k: usize = n;
    assert(text@.take(n as int) =~= text@);
    while k > 0 && text.get_char(k - 1) == '/'
        invariant
            n == text@.len(),
            k <= n,
            trailing_slashes(text@) == trailing_slashes(text@.take(k as int)) + (n - k),
        decreases k,
    {
        proof {
            let here = text@.take(k as int);
            assert(here.last() == text@[k - 1]);
            assert(here.drop_last() =~= text@.take(k - 1));
        }
        k = k - 1;
    }
    proof {
        let here = text@.take(k as int);
        if k > 0 {
            assert(here.last() == text@[k - 1]);
        }
        assert(trailing_slashes(here) == 0);
    }
    text.substring_char(0, k)
}

/// Decides whether a text ends with a suffix.
pub fn ends_with(text: &str, suffix: &str) -> (r: bool)
    ensures
        r == ends_with_text(text@, suffix@),
{
    let n: usize = text.unicode_len();
    let k: usize = suffix.unicode_len();
    if n < k {
        false
    } else {
        crate::text::same_text(text.substring_char(n - k, n), suffix)
    }
}

/// Writes the address of the chat completions of an endpoint.
pub fn completions_url(endpoint: &str) -> (url: String)
    ensures
        url@ == completions_url_text(endpoint@),
{
    let mut url = String::from_str(trim_trailing_slashes(endpoint));
    if ends_with(endpoint, "/v1") || text_contains(endpoint, "/v1/") {
        url.append("/chat/completions");
    } else {
        url.append("/v1/chat/completions");
    }
    url
}

/// The first place of a line break in the bytes, or their number if there
/// is none.
pub open spec fn line_end(bytes: Seq<u8>, from: int) -> int
    decreases bytes.len() - from,
{
    if from < 0 || from >= bytes.len() {
        bytes.len() as int
    } else if bytes[from] == 10 {
        from
    } else {
        line_end(bytes, from + 1)
    }
}

/// Takes the first line off the bytes received so far, its line break
/// included. Where no line is complete yet, nothing is taken.
pub fn take_line(buffer: &mut Vec<u8>) -> (line: Option<Vec<u8>>)
    ensures
        match line {
            Some(l) => line_end(old(buffer)@, 0) < old(buffer)@.len() && l@ == old(
                buffer,
            )@.subrange(0, line_end(old(buffer)@, 0) + 1) && final(buffer)@ == old(
                buffer,
            )@.subrange(line_end(old(buffer)@, 0) + 1, old(buffer)@.len() as int),
            None => line_end(old(buffer)@, 0) == old(buffer)@.len() && final(buffer)@ == old(
                buffer,
            )@,
        },
{
    let n: usize = buffer.len();
    let mut pos: usize = 0;
    while pos < n && buffer[pos] != 10
        invariant
            n == buffer@.len(),
            buffer@ == old(buffer)@,
            pos <= n,
            line_end(buffer@, 0) == line_end(buffer@, pos as int),
        decreases n - pos,
    {
        pos = pos + 1;
    }
    if pos >= n {
        None
    } else {
        let rest = buffer.split_off(pos + 1);
        let mut line: Vec<u8> = Vec::new();
        std::mem::swap(buffer, &mut line);
        *buffer = rest;
        Some(line)
    }
}

} // verus!
