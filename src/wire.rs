//! The shape of a chat request for the Gemini backend, and how its reply is
//! read. Turning these values into JSON and back happens outside the library.
use vstd::prelude::*;
use vstd::string::StringExecFns;

use crate::tools::LLMTools;
use crate::transcript::{
    entries_view, is_system, opt_view, ChatHistoryItem, ChatRole, ContextSnapshot, EntryView,
};

verus! {

/// One turn of a request: the backend's role tag and the text.
#[derive(Debug, Clone)]
pub struct WireTurn {
    pub role: String,
    pub text: String,
}

/// A chat request: the system directive, the turns in chronological order
/// ending with the new prompt, and the names of the tools switched on.
#[derive(Debug, Clone)]
pub struct ChatRequest {
    pub system_instruction: Option<String>,
    pub contents: Vec<WireTurn>,
    pub tools: Vec<String>,
}

/// A reply of the backend.
#[derive(Default, Debug, Clone, PartialEq)]
pub struct GeminiApiResponse {
    pub candidates: Vec<Candidate>,
}

/// One candidate reply.
#[derive(Default, Debug, Clone, PartialEq)]
pub struct Candidate {
    pub content: Content,
}

/// The content of a candidate.
#[derive(Default, Debug, Clone, PartialEq)]
pub struct Content {
    pub parts: Vec<Part>,
}

/// A piece of a candidate's text.
#[derive(Default, Debug, Clone, PartialEq)]
pub struct Part {
    pub text: String,
}

/// Why a reply held no text.
#[derive(Debug, Clone, Copy, PartialEq, Eq, Structural)]
pub enum DecodeError {
    NoCandidates,
    NoParts,
}

/// The backend's tag for `role`.
pub open spec fn role_tag(role: ChatRole) -> Seq<char> {
    match role {
        ChatRole::Model => "model"@,
        ChatRole::System => "system_instruction"@,
        ChatRole::User => "user"@,
    }
}

/// An attached file as the model sees it: a header naming the path, then the
/// contents.
pub open spec fn file_frame(path: Seq<char>, text: Seq<char>) -> Seq<char> {
    "## <"@ + path + "> Contents below ##\n"@ + text
}

/// The turn an entry becomes: a chat entry keeps its role and text; a file
/// entry becomes a user turn holding the framed contents.
pub open spec fn turn_of(e: EntryView) -> (Seq<char>, Seq<char>) {
    match e {
        EntryView::Chat { role, text } => (role_tag(role), text),
        EntryView::FileUpload { path, text } => ("user"@, file_frame(path, text)),
    }
}

/// The turns of a transcript, in order, leaving out system directives.
pub open spec fn turns_of(entries: Seq<EntryView>) -> Seq<(Seq<char>, Seq<char>)>
    decreases entries.len(),
{
    if entries.len() == 0 {
        Seq::empty()
    } else if is_system(entries.last()) {
        turns_of(entries.drop_last())
    } else {
        turns_of(entries.drop_last()).push(turn_of(entries.last()))
    }
}

/// The views of a list of turns.
pub open spec fn wire_view(v: Seq<WireTurn>) -> Seq<(Seq<char>, Seq<char>)> {
    v.map_values(|t: WireTurn| (t.role@, t.text@))
}

/// The views of a list of strings.
pub open spec fn strings_view(v: Seq<String>) -> Seq<Seq<char>> {
    v.map_values(|t: String| t@)
}

/// The names of the tools that `tools` switches on.
pub open spec fn tool_names(tools: LLMTools) -> Seq<Seq<char>> {
    if tools.search {
        seq!["google_search"@]
    } else {
        Seq::empty()
    }
}

/// The turn that `chat` becomes.
pub fn serialise_chat(chat: &ChatHistoryItem) -> (r: WireTurn)
    ensures
        (r.role@, r.text@) == turn_of(chat@),
{
    match chat {
        ChatHistoryItem::Chat(c) => {
            let role = match c.role {
                ChatRole::Model => String::from_str("model"),
                ChatRole::System => String::from_str("system_instruction"),
                ChatRole::User => String::from_str("user"),
            };
            WireTurn { role, text: c.text.clone() }
        },
        ChatHistoryItem::FileUpload(f) => {
            let mut text = String::from_str("## <");
            text.append(f.relative_filepath.as_str());
            text.append("> Contents below ##\n");
            text.append(f.text.as_str());
            WireTurn { role: String::from_str("user"), text }
        },
    }
}

/// The tool list of a request.
pub fn build_tools(tools: &LLMTools) -> (r: Vec<String>)
    ensures
        strings_view(r@) == tool_names(*tools),
{
    let mut r: Vec<String> = Vec::new();
    if tools.search {
        r.push(String::from_str("google_search"));
    }
    assert(strings_view(r@) =~= tool_names(*tools));
    r
}

/// The request that asks for a reply to `prompt`, given the transcript and
/// directive of `context` and the flags `tools`.
pub fn build_chat_body(context: &ContextSnapshot, tools: &LLMTools, prompt: &str) -> (r: ChatRequest)
    ensures
        opt_view(r.system_instruction) == context@.system,
        wire_view(r.contents@) == turns_of(context@.entries).push(("user"@, prompt@)),
        strings_view(r.tools@) == tool_names(*tools),
{
    let ghost es = context@.entries;
    let mut contents: Vec<WireTurn> = Vec::new();
    let mut i: usize = 0;
    while i < context.entries.len()
        invariant
            i <= context.entries@.len(),
            es == entries_view(context.entries@),
            wire_view(contents@) == turns_of(es.take(i as int)),
        decreases context.entries@.len() - i,
    {
        let item = &context.entries[i];
        proof {
            assert(es.take(i + 1).drop_last() =~= es.take(i as int));
            assert(es.take(i + 1).last() == item@);
        }
        let keep = match item {
            ChatHistoryItem::Chat(c) => c.role != ChatRole::System,
            ChatHistoryItem::FileUpload(_) => true,
        };
        if keep {
            let turn = serialise_chat(item);
            contents.push(turn);
            assert(wire_view(contents@) =~= turns_of(es.take(i as int)).push(turn_of(item@)));
        }
        i = i + 1;
    }
    let prompt_turn = WireTurn { role: String::from_str("user"), text: String::from_str(prompt) };
    contents.push(prompt_turn);
    proof {
        assert(es.take(context.entries@.len() as int) =~= es);
        assert(wire_view(contents@) =~= turns_of(es).push(("user"@, prompt@)));
    }
    let system_instruction = match &context.system_prompt {
        Some(t) => Some(t.clone()),
        None => None,
    };
    ChatRequest { system_instruction, contents, tools: build_tools(tools) }
}

/// The text of a reply: the last part of its first candidate.
pub fn decode_llm_response(response: &GeminiApiResponse) -> (r: Result<String, DecodeError>)
    ensures
        response.candidates@.len() == 0 ==> r == Err::<String, DecodeError>(
            DecodeError::NoCandidates,
        ),
        response.candidates@.len() > 0 && response.candidates@[0].content.parts@.len() == 0 ==> r
            == Err::<String, DecodeError>(DecodeError::NoParts),
        response.candidates@.len() > 0 && response.candidates@[0].content.parts@.len() > 0 ==> (r
            is Ok && r->Ok_0@ == response.candidates@[0].content.parts@.last().text@),
{
    if response.candidates.len() == 0 {
        return Err(DecodeError::NoCandidates);
    }
    let parts = &response.candidates[0].content.parts;
    if parts.len() == 0 {
        return Err(DecodeError::NoParts);
    }
    Ok(parts[parts.len() - 1].text.clone())
}

} // verus!
