//! The command surface: the commands and their options, the choices of the
//! start menu, how a line typed in the line-by-line chat is read, and how a
//! code reply is stripped of its fences.
use vstd::prelude::*;
use vstd::string::StringExecFns;
use vstd::string::StrSliceExecFns;

use crate::configuration::Configuration;
use crate::provider::APIKeyManager;
use crate::text::{
    contains, contains_str, occurs_at, same_text, starts_with_str, strip_prefixes, trim,
    trim_start_matches, trim_str,
};
use crate::tools::LLMTools;
use crate::wrap::{chars_of, pieces};

verus! {

/// What a typed line must contain to attach a file.
pub const FILE_INPUT_TRIGGER: &'static str = "#file:";

/// The line that clears the conversation.
pub const CLEAR_COMMAND: &'static str = "/clear";

/// Start menu entry: chat.
pub const CHAT: &'static str = "Chat";

/// Start menu entry: chat with web search on.
pub const CHAT_SEARCH: &'static str = "Chat (search)";

/// Start menu entry: store an API key.
pub const APIKEY: &'static str = "Set API Key";

/// The fence that opens and closes a code block.
pub const CODE_FENCE: &'static str = "```";

/// Options of the chat and code commands.
#[derive(Debug, Clone)]
pub struct ChatCommand {
    /// A single message to answer without an interactive session.
    pub message: Option<String>,
    pub search: bool,
}

/// Options of the command that stores an API key.
#[derive(Debug, Clone)]
pub struct SetApiKeyCommand {
    pub key: Option<String>,
}

/// The commands.
#[derive(Debug, Clone)]
pub enum Commands {
    Chat(ChatCommand),
    Code(ChatCommand),
    SetApiKey(SetApiKeyCommand),
}

/// The parsed command line.
#[derive(Debug, Clone)]
pub struct Cli {
    pub quiet: bool,
    pub command: Option<Commands>,
}

/// Where attached files are looked up.
#[derive(Debug, Clone)]
pub struct FileInputHandler {
    pub cwd: String,
}

/// The interactive side of the command line.
#[derive(Debug, Clone)]
pub struct CliHandler {
    pub file_handler: FileInputHandler,
}

/// What a command runs with.
pub struct CommandState<'a> {
    pub cli_handler: Option<&'a CliHandler>,
    pub config: &'a Configuration,
    pub api_key_manager: &'a APIKeyManager,
    pub quiet: bool,
}

/// What a typed line asks for.
#[derive(Debug, Clone)]
pub enum ChatAction {
    AddFile { path: String },
    Text(String),
    Clear,
    End,
}

/// Failures of the command line.
#[derive(Debug, Clone)]
pub enum Error {
    /// The user interrupted a prompt.
    Interrupted,
    InquiryError(String),
    CommandNotOption(String),
    FileHandlerError(String),
    LLMError(String),
}

/// The command a start menu entry stands for.
pub open spec fn command_for_choice(choice: Seq<char>) -> Option<Commands> {
    if choice == CHAT@ {
        Some(Commands::Chat(ChatCommand { message: None, search: false }))
    } else if choice == APIKEY@ {
        Some(Commands::SetApiKey(SetApiKeyCommand { key: None }))
    } else if choice == CHAT_SEARCH@ {
        Some(Commands::Chat(ChatCommand { message: None, search: true }))
    } else {
        None
    }
}

/// How a typed line is read: a line holding the file trigger attaches the
/// file named after it; `/clear`, white space aside, clears; an empty line
/// ends the session; anything else is a message.
pub open spec fn parsed_as(s: Seq<char>, a: ChatAction) -> bool {
    if contains(s, FILE_INPUT_TRIGGER@) {
        match a {
            ChatAction::AddFile { path } => path@ == trim(strip_prefixes(s, FILE_INPUT_TRIGGER@)),
            _ => false,
        }
    } else if trim(s) == CLEAR_COMMAND@ {
        a is Clear
    } else if s.len() == 0 {
        a is End
    } else {
        match a {
            ChatAction::Text(t) => t@ == s,
            _ => false,
        }
    }
}

/// The lines of `ls` that hold no code fence, in order.
pub open spec fn unfenced(ls: Seq<Seq<char>>) -> Seq<Seq<char>>
    decreases ls.len(),
{
    if ls.len() == 0 {
        Seq::empty()
    } else if contains(ls.last(), CODE_FENCE@) {
        unfenced(ls.drop_last())
    } else {
        unfenced(ls.drop_last()).push(ls.last())
    }
}

/// `ls` joined with line feeds between them.
pub open spec fn join_lines(ls: Seq<Seq<char>>) -> Seq<char>
    decreases ls.len(),
{
    if ls.len() == 0 {
        Seq::empty()
    } else if ls.len() == 1 {
        ls[0]
    } else {
        join_lines(ls.drop_last()) + "\n"@ + ls.last()
    }
}

/// A reply that opens with a code fence loses every line that holds a fence;
/// any other reply stays as it is.
pub open spec fn code_response(s: Seq<char>) -> Seq<char> {
    if occurs_at(s, CODE_FENCE@, 0) {
        join_lines(unfenced(pieces(s)))
    } else {
        s
    }
}

impl ChatCommand {
    /// The flags these options ask for.
    pub fn get_tools(&self) -> (r: LLMTools)
        ensures
            r.search == self.search,
    {
        LLMTools { search: self.search }
    }
}

impl<'a> CommandState<'a> {
    /// Bundles what a command runs with.
    pub fn new(
        cli_handler: Option<&'a CliHandler>,
        config: &'a Configuration,
        api_key_manager: &'a APIKeyManager,
        quiet: bool,
    ) -> (r: CommandState<'a>)
        ensures
            r.cli_handler == cli_handler,
            r.config == config,
            r.api_key_manager == api_key_manager,
            r.quiet == quiet,
    {
        CommandState { cli_handler, config, api_key_manager, quiet }
    }
}

impl FileInputHandler {
    /// Looks up attached files from `cwd`.
    pub fn new(cwd: String) -> (r: FileInputHandler)
        ensures
            r.cwd == cwd,
    {
        FileInputHandler { cwd }
    }
}

impl CliHandler {
    /// The interactive side, with `file_handler` for attachments.
    pub fn new(file_handler: FileInputHandler) -> (r: CliHandler)
        ensures
            r.file_handler.cwd == file_handler.cwd,
    {
        CliHandler { file_handler }
    }

    /// The entries of the start menu, in order.
    pub fn command_choices() -> (r: Vec<&'static str>)
        ensures
            r@.len() == 3,
            r@[0]@ == CHAT@,
            r@[1]@ == CHAT_SEARCH@,
            r@[2]@ == APIKEY@,
    {
        vec![CHAT, CHAT_SEARCH, APIKEY]
    }

    /// The command that the start menu entry `choice` stands for; a choice
    /// that is not an entry is an error naming it.
    pub fn command_from_choice(choice: &str) -> (r: Result<Commands, Error>)
        ensures
            command_for_choice(choice@) matches Some(c) ==> r == Ok::<Commands, Error>(c),
            command_for_choice(choice@) is None ==> (r matches Err(Error::CommandNotOption(c))
                && c@ == choice@),
    {
        if same_text(choice, CHAT) {
            Ok(Commands::Chat(ChatCommand { message: None, search: false }))
        } else if same_text(choice, APIKEY) {
            Ok(Commands::SetApiKey(SetApiKeyCommand { key: None }))
        } else if same_text(choice, CHAT_SEARCH) {
            Ok(Commands::Chat(ChatCommand { message: None, search: true }))
        } else {
            Err(Error::CommandNotOption(String::from_str(choice)))
        }
    }

    /// Reads a line typed in the line-by-line chat.
    pub fn parse_message(response: &str) -> (r: ChatAction)
        ensures
            parsed_as(response@, r),
    {
        if contains_str(response, FILE_INPUT_TRIGGER) {
            let rest = trim_start_matches(response, FILE_INPUT_TRIGGER);
            ChatAction::AddFile { path: trim_str(rest.as_str()) }
        } else {
            let t = trim_str(response);
            if same_text(t.as_str(), CLEAR_COMMAND) {
                ChatAction::Clear
            } else if response.is_empty() {
                ChatAction::End
            } else {
                ChatAction::Text(String::from_str(response))
            }
        }
    }
}

/// A code reply without its fence lines, when it opens with a fence.
pub fn parse_code_response(response: &str) -> (r: String)
    ensures
        r@ == code_response(response@),
{
    if !starts_with_str(response, CODE_FENCE) {
        return String::from_str(response);
    }
    let cs = chars_of(response);
    let n = cs.len();
    let ghost s = cs@;
    let mut out = String::new();
    let mut any = false;
    let mut ls: usize = 0;
    let mut i: usize = 0;
    proof {
        assert(s.take(0) =~= Seq::<char>::empty());
        assert(s.subrange(0, 0) =~= Seq::<char>::empty());
        assert(out@ =~= join_lines(Seq::<Seq<char>>::empty()));
    }
    while i < n
        invariant
            n == s.len(),
            cs@ == s,
            s == response@,
            ls <= i <= n,
            pieces(s.take(i as int)).len() >= 1,
            pieces(s.take(i as int)).last() == s.subrange(ls as int, i as int),
            out@ == join_lines(unfenced(pieces(s.take(i as int)).drop_last())),
            any == (unfenced(pieces(s.take(i as int)).drop_last()).len() > 0),
        decreases n - i,
    {
        let ghost p = pieces(s.take(i as int));
        proof {
            assert(s.take(i + 1).drop_last() =~= s.take(i as int));
            assert(s.take(i + 1).last() == cs@[i as int]);
        }
        if cs[i] == '\n' {
            let piece = response.substring_char(ls, i);
            let ghost u = unfenced(p.drop_last());
            if !contains_str(piece, CODE_FENCE) {
                if any {
                    out.append("\n");
                }
                out.append(piece);
                proof {
                    assert(p =~= p.drop_last().push(p.last()));
                    assert(unfenced(p) == u.push(piece@));
                    if u.len() == 0 {
                        assert(out@ =~= join_lines(u.push(piece@)));
                    } else {
                        assert(u.push(piece@).drop_last() =~= u);
                        assert(out@ =~= join_lines(u.push(piece@)));
                    }
                }
                any = true;
            } else {
                proof {
                    assert(p =~= p.drop_last().push(p.last()));
                }
            }
            proof {
                assert(pieces(s.take(i + 1)).drop_last() =~= p);
                assert(s.subrange(i + 1, i + 1) =~= Seq::<char>::empty());
            }
            ls = i + 1;
        } else {
            proof {
                assert(pieces(s.take(i + 1)).drop_last() =~= p.drop_last());
                assert(pieces(s.take(i + 1)).last() =~= s.subrange(ls as int, i + 1));
            }
        }
        i = i + 1;
    }
    proof {
        assert(s.take(n as int) =~= s);
    }
    let ghost p = pieces(s);
    let ghost u = unfenced(p.drop_last());
    let piece = response.substring_char(ls, n);
    if !contains_str(piece, CODE_FENCE) {
        if any {
            out.append("\n");
        }
        out.append(piece);
        proof {
            assert(p =~= p.drop_last().push(p.last()));
            if u.len() == 0 {
                assert(out@ =~= join_lines(u.push(piece@)));
            } else {
                assert(u.push(piece@).drop_last() =~= u);
                assert(out@ =~= join_lines(u.push(piece@)));
            }
        }
    } else {
        proof {
            assert(p =~= p.drop_last().push(p.last()));
        }
    }
    out
}

} // verus!
