//! The session state machine: focus zone, tool overlay, generation lockout,
//! scroll position and the draft, driven by one ordered stream of events.
use vstd::prelude::*;

use crate::input::{input_of, Input, KeyEvent, KeyEventKind};
use crate::tools::{tool_at, toggled, LLMTools, LlmToolEnum, TOOL_COUNT};
use crate::wrap::{capped, count_total_height, total_height};
use crate::transcript::{
    added, appended, chat_entry, context_wf, empty_context, ChatContext, ChatData,
    ChatHistoryItem, ChatRole, ContextSnapshot, ContextView,
};

verus! {

/// The screen region that takes key input.
#[derive(Debug, Clone, Copy, PartialEq, Eq, Structural)]
pub enum SelectedZone {
    ChatHistory,
    TextInput,
}

/// A modal layer that takes every key while it is open.
#[derive(Debug, Clone, Copy, PartialEq, Eq, Structural)]
pub enum Popover {
    LlmToolList,
}

/// Output of a running generation.
#[derive(Debug, Clone)]
pub enum LlmResponse {
    Finished,
    Chunk(String),
}

/// One item of the session's single ordered event stream.
#[derive(Debug, Clone)]
pub enum Event {
    Tick,
    Key(KeyEvent),
    LlmResponse(LlmResponse),
    /// The generation failed; what was streamed so far stays.
    StreamError(String),
    /// Reading the terminal failed; the session cannot go on.
    IoError(String),
}

/// What a key means once the focus zone and the overlay are taken into account.
#[derive(Debug, Clone, Copy, PartialEq, Eq, Structural)]
pub enum Command {
    Quit,
    Dismiss,
    SelectPrevious,
    SelectNext,
    ToggleSelected,
    ChangeWindow,
    OpenToolOptions,
    Submit,
    Edit,
    ScrollUp,
    ScrollDown,
    Ignore,
}

/// Everything a new generation needs: the prompt, the transcript before it,
/// and the flags in force.
pub struct GenerationRequest {
    pub prompt: String,
    pub context: ContextSnapshot,
    pub tools: LLMTools,
}

/// Work that the caller has to do after an event.
pub enum Action {
    Nothing,
    /// Hand the key to the draft editor, then report the new draft.
    EditDraft,
    /// Start a generation for this request.
    Generate(GenerationRequest),
}

/// Why the session has to end.
#[derive(Debug, Clone)]
pub enum SessionError {
    Terminal(String),
}

/// The precedence of bindings: the overlay's own first (it swallows every
/// other key), then the global ones, then those of the focus zone.
pub open spec fn command_of(input: Input, zone: SelectedZone, popover: Option<Popover>) -> Command {
    if popover is Some {
        match input {
            Input::Back | Input::ToggleLlmOptions => Command::Dismiss,
            Input::Quit => Command::Quit,
            Input::ScrollUp => Command::SelectPrevious,
            Input::ScrollDown => Command::SelectNext,
            Input::Toggle => Command::ToggleSelected,
            _ => Command::Ignore,
        }
    } else {
        match input {
            Input::Quit => Command::Quit,
            Input::ChangeWindowUp | Input::ChangeWindowDown => Command::ChangeWindow,
            Input::ToggleLlmOptions => Command::OpenToolOptions,
            _ => match zone {
                SelectedZone::TextInput => match input {
                    Input::Submit => Command::Submit,
                    _ => Command::Edit,
                },
                SelectedZone::ChatHistory => match input {
                    Input::ScrollUp => Command::ScrollUp,
                    Input::ScrollDown => Command::ScrollDown,
                    Input::Submit => Command::Submit,
                    _ => Command::Ignore,
                },
            },
        }
    }
}

/// Maps a key's meaning to a command for the given zone and overlay.
pub fn classify(input: Input, zone: SelectedZone, popover: Option<Popover>) -> (r: Command)
    ensures
        r == command_of(input, zone, popover),
{
    match popover {
        Some(_) => match input {
            Input::Back | Input::ToggleLlmOptions => Command::Dismiss,
            Input::Quit => Command::Quit,
            Input::ScrollUp => Command::SelectPrevious,
            Input::ScrollDown => Command::SelectNext,
            Input::Toggle => Command::ToggleSelected,
            _ => Command::Ignore,
        },
        None => match input {
            Input::Quit => Command::Quit,
            Input::ChangeWindowUp | Input::ChangeWindowDown => Command::ChangeWindow,
            Input::ToggleLlmOptions => Command::OpenToolOptions,
            _ => match zone {
                SelectedZone::TextInput => match input {
                    Input::Submit => Command::Submit,
                    _ => Command::Edit,
                },
                SelectedZone::ChatHistory => match input {
                    Input::ScrollUp => Command::ScrollUp,
                    Input::ScrollDown => Command::ScrollDown,
                    Input::Submit => Command::Submit,
                    _ => Command::Ignore,
                },
            },
        },
    }
}

/// The state of a session.
pub struct AppView {
    pub context: ContextView,
    pub tools: LLMTools,
    pub streaming_target: Option<usize>,
    pub exit: bool,
    pub zone: SelectedZone,
    pub popover: Option<Popover>,
    pub tool_selected: nat,
    pub generating: bool,
    pub scroll_offset: nat,
    pub content_height: nat,
    pub draft: Seq<char>,
    pub status: Option<Seq<char>>,
}

/// The invariant of a session: an entry receives streamed text only while a
/// generation runs, the overlay cursor points at an entry, and the scroll
/// offset stays within the content.
pub open spec fn app_wf(s: AppView) -> bool {
    &&& context_wf(s.context)
    &&& (s.streaming_target is Some ==> s.generating)
    &&& s.tool_selected < TOOL_COUNT
    &&& s.scroll_offset <= s.content_height
    &&& s.content_height <= u16::MAX
}

/// Whether a submit is honoured: no generation runs and the draft holds text.
pub open spec fn submit_accepted(s: AppView) -> bool {
    !s.generating && s.draft.len() > 0
}

/// The state after a submit: a rejected one changes nothing; an accepted one
/// adds the draft as a user turn, empties the draft and starts generating.
pub open spec fn submitted(s: AppView) -> AppView {
    if submit_accepted(s) {
        AppView {
            context: added(s.context, chat_entry(ChatRole::User, s.draft)),
            draft: Seq::empty(),
            generating: true,
            streaming_target: None,
            status: None,
            ..s
        }
    } else {
        s
    }
}

/// The state after `command`.
pub open spec fn applied(s: AppView, command: Command) -> AppView {
    match command {
        Command::Quit => AppView { exit: true, ..s },
        Command::Dismiss => AppView { popover: None, ..s },
        Command::SelectPrevious => AppView {
            tool_selected: if s.tool_selected > 0 { (s.tool_selected - 1) as nat } else { 0 },
            ..s
        },
        Command::SelectNext => AppView {
            tool_selected: if s.tool_selected + 1 < TOOL_COUNT { s.tool_selected + 1 } else { s.tool_selected },
            ..s
        },
        Command::ToggleSelected => match tool_at(s.tool_selected as int) {
            Some(item) => AppView { tools: toggled(s.tools, item), ..s },
            None => s,
        },
        Command::ChangeWindow => AppView {
            zone: match s.zone {
                SelectedZone::ChatHistory => SelectedZone::TextInput,
                SelectedZone::TextInput => SelectedZone::ChatHistory,
            },
            ..s
        },
        Command::OpenToolOptions => AppView { popover: Some(Popover::LlmToolList), ..s },
        Command::Submit => submitted(s),
        Command::ScrollUp => AppView {
            scroll_offset: if s.scroll_offset > 0 { (s.scroll_offset - 1) as nat } else { 0 },
            ..s
        },
        Command::ScrollDown => AppView {
            scroll_offset: if s.scroll_offset < s.content_height { s.scroll_offset + 1 } else { s.content_height },
            ..s
        },
        Command::Edit | Command::Ignore => s,
    }
}

/// The state after a chunk of model output. The first chunk of a generation
/// adds a model entry and makes it the target; later ones extend the target.
/// A chunk while nothing generates is stale and changes nothing.
pub open spec fn on_chunk(s: AppView, text: Seq<char>) -> AppView {
    if !s.generating {
        s
    } else {
        match s.streaming_target {
            None => AppView {
                context: added(s.context, chat_entry(ChatRole::Model, text)),
                streaming_target: Some(s.context.entries.len() as usize),
                ..s
            },
            Some(i) => AppView { context: appended(s.context, i as int, text), ..s },
        }
    }
}

/// The state once a generation has ended, well or not.
pub open spec fn generation_ended(s: AppView, status: Option<Seq<char>>) -> AppView {
    AppView { generating: false, streaming_target: None, status, ..s }
}

/// The command that `e` carries in state `s`.
pub open spec fn command_for(s: AppView, e: Event) -> Command {
    match e {
        Event::Key(k) => if k.kind == KeyEventKind::Press {
            command_of(input_of(k.code, k.modifiers.bits), s.zone, s.popover)
        } else {
            Command::Ignore
        },
        _ => Command::Ignore,
    }
}

/// The state after event `e`.
pub open spec fn next_state(s: AppView, e: Event) -> AppView {
    match e {
        Event::Tick => s,
        Event::Key(_) => applied(s, command_for(s, e)),
        Event::LlmResponse(LlmResponse::Chunk(t)) => on_chunk(s, t@),
        Event::LlmResponse(LlmResponse::Finished) => generation_ended(s, s.status),
        Event::StreamError(cause) => generation_ended(s, Some(cause@)),
        Event::IoError(_) => AppView { exit: true, ..s },
    }
}

/// What the caller is asked to do after `command` in state `s`.
pub open spec fn action_ok(s: AppView, command: Command, r: Action) -> bool {
    match r {
        Action::Nothing => command != Command::Edit && !(command == Command::Submit
            && submit_accepted(s)),
        Action::EditDraft => command == Command::Edit,
        Action::Generate(req) => command == Command::Submit && submit_accepted(s)
            && req.prompt@ == s.draft && req.context@ == s.context && req.tools == s.tools,
    }
}

/// The session.
pub struct App {
    context: ChatContext,
    tools: LLMTools,
    streaming_target: Option<usize>,
    exit: bool,
    selected_zone: SelectedZone,
    popover: Option<Popover>,
    tool_selected: usize,
    generating: bool,
    scroll_offset: u16,
    content_height: u16,
    draft: String,
    status: Option<String>,
}

impl View for App {
    type V = AppView;

    closed spec fn view(&self) -> AppView {
        AppView {
            context: self.context@,
            tools: self.tools,
            streaming_target: self.streaming_target,
            exit: self.exit,
            zone: self.selected_zone,
            popover: self.popover,
            tool_selected: self.tool_selected as nat,
            generating: self.generating,
            scroll_offset: self.scroll_offset as nat,
            content_height: self.content_height as nat,
            draft: self.draft@,
            status: match self.status {
                Some(t) => Some(t@),
                None => None,
            },
        }
    }
}

impl App {
    /// A session over `context` with flags `tools`: input focused, no overlay,
    /// nothing generating, empty draft, scrolled to the top.
    pub fn new(context: ChatContext, tools: LLMTools) -> (r: App)
        requires
            context_wf(context@),
        ensures
            app_wf(r@),
            r@ == (AppView {
                context: context@,
                tools,
                streaming_target: None,
                exit: false,
                zone: SelectedZone::TextInput,
                popover: None,
                tool_selected: 0,
                generating: false,
                scroll_offset: 0,
                content_height: 0,
                draft: Seq::empty(),
                status: None,
            }),
    {
        let r = App {
            context,
            tools,
            streaming_target: None,
            exit: false,
            selected_zone: SelectedZone::TextInput,
            popover: None,
            tool_selected: 0,
            generating: false,
            scroll_offset: 0,
            content_height: 0,
            draft: String::new(),
            status: None,
        };
        r
    }

    /// The conversation context.
    pub fn context(&self) -> (r: &ChatContext)
        ensures
            r@ == self@.context,
    {
        &self.context
    }

    /// The capability flags in force.
    pub fn tools(&self) -> (r: LLMTools)
        ensures
            r == self@.tools,
    {
        self.tools
    }

    /// Whether a generation runs.
    pub fn generating(&self) -> (r: bool)
        ensures
            r == self@.generating,
    {
        self.generating
    }

    /// The entry that receives streamed text, if any.
    pub fn streaming_target(&self) -> (r: Option<usize>)
        ensures
            r == self@.streaming_target,
    {
        self.streaming_target
    }

    /// Whether the session is to end.
    pub fn should_exit(&self) -> (r: bool)
        ensures
            r == self@.exit,
    {
        self.exit
    }

    /// The focused zone.
    pub fn selected_zone(&self) -> (r: SelectedZone)
        ensures
            r == self@.zone,
    {
        self.selected_zone
    }

    /// The open overlay, if any.
    pub fn popover(&self) -> (r: Option<Popover>)
        ensures
            r == self@.popover,
    {
        self.popover
    }

    /// The overlay entry under the cursor.
    pub fn tool_selected(&self) -> (r: usize)
        ensures
            r as nat == self@.tool_selected,
    {
        self.tool_selected
    }

    /// How far the history is scrolled.
    pub fn scroll_offset(&self) -> (r: u16)
        ensures
            r as nat == self@.scroll_offset,
    {
        self.scroll_offset
    }

    /// The height that the scroll offset is kept within.
    pub fn content_height(&self) -> (r: u16)
        ensures
            r as nat == self@.content_height,
    {
        self.content_height
    }

    /// The draft.
    pub fn draft(&self) -> (r: &String)
        ensures
            r@ == self@.draft,
    {
        &self.draft
    }

    /// The message of the last failed generation, until the next submit.
    pub fn status(&self) -> (r: &Option<String>)
        ensures
            match *r {
                Some(t) => self@.status == Some(t@),
                None => self@.status is None,
            },
    {
        &self.status
    }

    /// Replaces the draft with what the editor now holds.
    pub fn set_draft(&mut self, draft: String)
        requires
            app_wf(old(self)@),
        ensures
            app_wf(final(self)@),
            final(self)@ == (AppView { draft: draft@, ..old(self)@ }),
    {
        self.draft = draft;
    }

    /// Records the height of the history's content; the scroll offset
    /// is pulled back into it.
    pub fn set_content_height(&mut self, height: u16)
        requires
            app_wf(old(self)@),
        ensures
            app_wf(final(self)@),
            final(self)@ == (AppView {
                content_height: height as nat,
                scroll_offset: if old(self)@.scroll_offset <= height as nat {
                    old(self)@.scroll_offset
                } else {
                    height as nat
                },
                ..old(self)@
            }),
    {
        self.content_height = height;
        if self.scroll_offset > height {
            self.scroll_offset = height;
        }
    }

    /// Sizes the scroll range from the transcript wrapped at `width`.
    pub fn update_content_height(&mut self, width: u16)
        requires
            app_wf(old(self)@),
        ensures
            app_wf(final(self)@),
            final(self)@ == (AppView {
                content_height: capped(total_height(old(self)@.context.entries, width as nat)),
                scroll_offset: if old(self)@.scroll_offset <= capped(
                    total_height(old(self)@.context.entries, width as nat),
                ) {
                    old(self)@.scroll_offset
                } else {
                    capped(total_height(old(self)@.context.entries, width as nat))
                },
                ..old(self)@
            }),
    {
        let height = count_total_height(self.context.get_history(), width);
        self.set_content_height(height);
    }

    fn submit_prompt(&mut self) -> (r: Action)
        requires
            app_wf(old(self)@),
        ensures
            app_wf(final(self)@),
            final(self)@ == submitted(old(self)@),
            action_ok(old(self)@, Command::Submit, r),
    {
        if self.generating || self.draft.unicode_len() == 0 {
            return Action::Nothing;
        }
        let prompt = self.draft.clone();
        let context = self.context.snapshot();
        let _ = self.context.add_chat_to_context(ChatHistoryItem::Chat(ChatData::user(self.draft.clone())));
        self.draft = String::new();
        self.generating = true;
        self.streaming_target = None;
        self.status = None;
        Action::Generate(GenerationRequest { prompt, context, tools: self.tools })
    }

    /// Carries out `command`.
    pub fn apply_command(&mut self, command: Command) -> (r: Action)
        requires
            app_wf(old(self)@),
        ensures
            app_wf(final(self)@),
            final(self)@ == applied(old(self)@, command),
            action_ok(old(self)@, command, r),
    {
        match command {
            Command::Quit => {
                self.exit = true;
            },
            Command::Dismiss => {
                self.popover = None;
            },
            Command::SelectPrevious => {
                if self.tool_selected > 0 {
                    self.tool_selected = self.tool_selected - 1;
                }
            },
            Command::SelectNext => {
                if self.tool_selected + 1 < TOOL_COUNT {
                    self.tool_selected = self.tool_selected + 1;
                }
            },
            Command::ToggleSelected => {
                match LlmToolEnum::from_repr(self.tool_selected) {
                    Some(item) => self.tools.toggle(item),
                    None => {},
                }
            },
            Command::ChangeWindow => {
                self.selected_zone = match self.selected_zone {
                    SelectedZone::ChatHistory => SelectedZone::TextInput,
                    SelectedZone::TextInput => SelectedZone::ChatHistory,
                };
            },
            Command::OpenToolOptions => {
                self.popover = Some(Popover::LlmToolList);
            },
            Command::Submit => {
                return self.submit_prompt();
            },
            Command::ScrollUp => {
                if self.scroll_offset > 0 {
                    self.scroll_offset = self.scroll_offset - 1;
                }
            },
            Command::ScrollDown => {
                if self.scroll_offset < self.content_height {
                    self.scroll_offset = self.scroll_offset + 1;
                }
            },
            Command::Edit => {
                return Action::EditDraft;
            },
            Command::Ignore => {},
        }
        Action::Nothing
    }

    fn take_chunk(&mut self, chunk: String)
        requires
            app_wf(old(self)@),
        ensures
            app_wf(final(self)@),
            final(self)@ == on_chunk(old(self)@, chunk@),
    {
        if !self.generating {
            return;
        }
        match self.streaming_target {
            Some(index) => {
                let _ = self.context.append_chat_in_context(index, chunk.as_str());
            },
            None => {
                self.streaming_target = self.context.add_chat_to_context(
                    ChatHistoryItem::Chat(ChatData::model(chunk)),
                );
            },
        }
    }

    /// Folds `event` into the session. A terminal failure is returned as an
    /// error; every other event is handled in place.
    pub fn handle_event(&mut self, event: Event) -> (r: Result<Action, SessionError>)
        requires
            app_wf(old(self)@),
        ensures
            app_wf(final(self)@),
            final(self)@ == next_state(old(self)@, event),
            r is Err <==> event is IoError,
            r is Ok ==> action_ok(old(self)@, command_for(old(self)@, event), r->Ok_0),
    {
        match event {
            Event::Tick => Ok(Action::Nothing),
            Event::Key(key) => {
                if key.kind == KeyEventKind::Press {
                    let input = Input::from_key(key);
                    let command = classify(input, self.selected_zone, self.popover);
                    Ok(self.apply_command(command))
                } else {
                    Ok(Action::Nothing)
                }
            },
            Event::LlmResponse(LlmResponse::Chunk(chunk)) => {
                self.take_chunk(chunk);
                Ok(Action::Nothing)
            },
            Event::LlmResponse(LlmResponse::Finished) => {
                self.generating = false;
                self.streaming_target = None;
                Ok(Action::Nothing)
            },
            Event::StreamError(cause) => {
                self.generating = false;
                self.streaming_target = None;
                self.status = Some(cause);
                Ok(Action::Nothing)
            },
            Event::IoError(cause) => {
                self.exit = true;
                Err(SessionError::Terminal(cause))
            },
        }
    }
}

/// The chunks of a reply joined in delivery order.
pub open spec fn concat_all(cs: Seq<Seq<char>>) -> Seq<char>
    decreases cs.len(),
{
    if cs.len() == 0 {
        Seq::empty()
    } else {
        concat_all(cs.drop_last()) + cs.last()
    }
}

/// The state after the chunks `cs`, in order.
pub open spec fn chunks_applied(s: AppView, cs: Seq<Seq<char>>) -> AppView
    decreases cs.len(),
{
    if cs.len() == 0 {
        s
    } else {
        on_chunk(chunks_applied(s, cs.drop_last()), cs.last())
    }
}

proof fn lemma_chunks_from_fresh_generation(s: AppView, cs: Seq<Seq<char>>)
    requires
        s.generating,
        s.streaming_target is None,
        s.context.entries.len() < usize::MAX,
        cs.len() > 0,
    ensures
        chunks_applied(s, cs) == (AppView {
            context: ContextView {
                entries: s.context.entries.push(chat_entry(ChatRole::Model, concat_all(cs))),
                system: s.context.system,
            },
            streaming_target: Some(s.context.entries.len() as usize),
            ..s
        }),
    decreases cs.len(),
{
    if cs.len() == 1 {
        assert(cs.drop_last() =~= Seq::<Seq<char>>::empty());
        assert(concat_all(cs) =~= cs.last());
    } else {
        lemma_chunks_from_fresh_generation(s, cs.drop_last());
        let prev = chunks_applied(s, cs.drop_last());
        let n = s.context.entries.len();
        assert(prev.context.entries[n as int] == chat_entry(ChatRole::Model, concat_all(cs.drop_last())));
        assert(prev.context.entries.update(n as int, chat_entry(ChatRole::Model, concat_all(cs)))
            =~= s.context.entries.push(chat_entry(ChatRole::Model, concat_all(cs))));
    }
}

/// After an accepted submit, any non-empty run of chunks leaves the transcript
/// with the user's turn and exactly one new model entry after it, whose text is
/// the chunks joined in delivery order; the generation is still running.
pub proof fn lemma_stream_builds_one_model_entry(s: AppView, cs: Seq<Seq<char>>)
    requires
        app_wf(s),
        submit_accepted(s),
        s.context.entries.len() + 1 < usize::MAX,
        cs.len() > 0,
    ensures
        chunks_applied(submitted(s), cs).context.entries == s.context.entries.push(
            chat_entry(ChatRole::User, s.draft),
        ).push(chat_entry(ChatRole::Model, concat_all(cs))),
        chunks_applied(submitted(s), cs).context.system == s.context.system,
        chunks_applied(submitted(s), cs).generating,
        chunks_applied(submitted(s), cs).draft.len() == 0,
{
    lemma_chunks_from_fresh_generation(submitted(s), cs);
}

/// A submit while a generation runs changes nothing: not the transcript, not
/// the draft, nothing else.
pub proof fn lemma_submit_while_generating_is_ignored(s: AppView)
    requires
        s.generating,
    ensures
        applied(s, Command::Submit) == s,
{
}

} // verus!
