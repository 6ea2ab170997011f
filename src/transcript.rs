//! The conversation context: an ordered transcript of entries, each addressed
//! by a stable index, and at most one active system directive kept apart from
//! the transcript.
use vstd::prelude::*;

verus! {

/// Who wrote a chat entry.
#[derive(Debug, Clone, Copy, PartialEq, Eq, Structural)]
pub enum ChatRole {
    User,
    Model,
    System,
}

/// A chat turn.
#[derive(Debug, Clone)]
pub struct ChatData {
    pub role: ChatRole,
    pub text: String,
}

/// The contents of a file the user attached.
#[derive(Debug, Clone)]
pub struct FileUploadData {
    pub text: String,
    pub relative_filepath: String,
}

/// One transcript entry.
#[derive(Debug, Clone)]
pub enum ChatHistoryItem {
    FileUpload(FileUploadData),
    Chat(ChatData),
}

/// What a transcript entry holds.
pub enum EntryView {
    FileUpload { path: Seq<char>, text: Seq<char> },
    Chat { role: ChatRole, text: Seq<char> },
}

impl View for ChatHistoryItem {
    type V = EntryView;

    open spec fn view(&self) -> EntryView {
        match self {
            ChatHistoryItem::FileUpload(f) => EntryView::FileUpload {
                path: f.relative_filepath@,
                text: f.text@,
            },
            ChatHistoryItem::Chat(c) => EntryView::Chat { role: c.role, text: c.text@ },
        }
    }
}

/// What a context holds: the transcript in insertion order and the active
/// system directive.
pub struct ContextView {
    pub entries: Seq<EntryView>,
    pub system: Option<Seq<char>>,
}

/// The context with nothing in it.
pub open spec fn empty_context() -> ContextView {
    ContextView { entries: Seq::empty(), system: None }
}

/// Whether `e` is a system directive.
pub open spec fn is_system(e: EntryView) -> bool {
    e matches EntryView::Chat { role: ChatRole::System, .. }
}

/// A system directive replaces the active one; any other entry goes to the
/// end of the transcript.
pub open spec fn added(c: ContextView, e: EntryView) -> ContextView {
    match e {
        EntryView::Chat { role: ChatRole::System, text } => ContextView {
            entries: c.entries,
            system: Some(text),
        },
        _ => ContextView { entries: c.entries.push(e), system: c.system },
    }
}

/// `delta` added to the end of the chat entry at `i`; a file entry, or an
/// index past the end, leaves the context as it is.
pub open spec fn appended(c: ContextView, i: int, delta: Seq<char>) -> ContextView {
    if 0 <= i < c.entries.len() {
        match c.entries[i] {
            EntryView::Chat { role, text } => ContextView {
                entries: c.entries.update(i, EntryView::Chat { role, text: text + delta }),
                system: c.system,
            },
            EntryView::FileUpload { .. } => c,
        }
    } else {
        c
    }
}

/// A chat entry written by `role`.
pub open spec fn chat_entry(role: ChatRole, text: Seq<char>) -> EntryView {
    EntryView::Chat { role, text }
}

/// Why text could not be added to an entry.
#[derive(Debug, Clone, Copy, PartialEq, Eq, Structural)]
pub enum ContextError {
    /// No entry stands at this index.
    NoEntryAt(usize),
}

/// The context model: transcript and active system directive.
pub struct ChatContext {
    memory: Vec<ChatHistoryItem>,
    system_prompt: Option<String>,
}

/// A copy of a context, in the order of the transcript.
pub struct ContextSnapshot {
    pub entries: Vec<ChatHistoryItem>,
    pub system_prompt: Option<String>,
}

/// The view of an optional string.
pub open spec fn opt_view(s: Option<String>) -> Option<Seq<char>> {
    match s {
        Some(t) => Some(t@),
        None => None,
    }
}

/// The views of a list of entries.
pub open spec fn entries_view(v: Seq<ChatHistoryItem>) -> Seq<EntryView> {
    v.map_values(|e: ChatHistoryItem| e@)
}

impl View for ContextSnapshot {
    type V = ContextView;

    open spec fn view(&self) -> ContextView {
        ContextView { entries: entries_view(self.entries@), system: opt_view(self.system_prompt) }
    }
}

impl View for ChatContext {
    type V = ContextView;

    closed spec fn view(&self) -> ContextView {
        ContextView { entries: entries_view(self.memory@), system: opt_view(self.system_prompt) }
    }
}

/// A transcript never holds a system directive: it is kept apart.
pub open spec fn context_wf(c: ContextView) -> bool {
    forall|i: int| 0 <= i < c.entries.len() ==> !is_system(#[trigger] c.entries[i])
}

impl ChatData {
    /// A turn of the user.
    pub fn user(text: String) -> (r: ChatData)
        ensures
            r.role == ChatRole::User,
            r.text == text,
    {
        ChatData { role: ChatRole::User, text }
    }

    /// A turn of the model.
    pub fn model(text: String) -> (r: ChatData)
        ensures
            r.role == ChatRole::Model,
            r.text == text,
    {
        ChatData { role: ChatRole::Model, text }
    }

    /// A system directive.
    pub fn system(text: String) -> (r: ChatData)
        ensures
            r.role == ChatRole::System,
            r.text == text,
    {
        ChatData { role: ChatRole::System, text }
    }
}

impl ChatRole {
    /// The title shown above an entry of this role.
    pub fn display(&self) -> (r: &'static str)
        ensures
            *self == ChatRole::User ==> r@ == "User"@,
            *self == ChatRole::Model ==> r@ == "LLM"@,
            *self == ChatRole::System ==> r@ == "System Instructions"@,
    {
        match self {
            ChatRole::User => "User",
            ChatRole::Model => "LLM",
            ChatRole::System => "System Instructions",
        }
    }
}

impl ChatHistoryItem {
    /// An attached file, read from `relative_filepath`.
    pub fn file_upload(relative_filepath: String, text: String) -> (r: ChatHistoryItem)
        ensures
            r@ == (EntryView::FileUpload { path: relative_filepath@, text: text@ }),
    {
        ChatHistoryItem::FileUpload(FileUploadData { text, relative_filepath })
    }

    /// A copy of this entry.
    pub fn duplicate(&self) -> (r: ChatHistoryItem)
        ensures
            r@ == self@,
    {
        match self {
            ChatHistoryItem::FileUpload(f) => ChatHistoryItem::FileUpload(
                FileUploadData { text: f.text.clone(), relative_filepath: f.relative_filepath.clone() },
            ),
            ChatHistoryItem::Chat(c) => ChatHistoryItem::Chat(
                ChatData { role: c.role, text: c.text.clone() },
            ),
        }
    }
}

/// A copy of each entry of `v`, in order.
pub fn copy_entries(v: &Vec<ChatHistoryItem>) -> (r: Vec<ChatHistoryItem>)
    ensures
        entries_view(r@) == entries_view(v@),
{
    let mut r: Vec<ChatHistoryItem> = Vec::new();
    let mut i: usize = 0;
    while i < v.len()
        invariant
            i <= v@.len(),
            r@.len() == i,
            forall|k: int| 0 <= k < i ==> (#[trigger] r@[k])@ == v@[k]@,
        decreases v@.len() - i,
    {
        r.push(v[i].duplicate());
        i += 1;
    }
    assert(entries_view(r@) =~= entries_view(v@));
    r
}

/// A copy of an optional string.
fn copy_opt(s: &Option<String>) -> (r: Option<String>)
    ensures
        opt_view(r) == opt_view(*s),
{
    match s {
        Some(t) => Some(t.clone()),
        None => None,
    }
}

impl ChatContext {
    /// An empty context.
    pub fn new() -> (r: ChatContext)
        ensures
            r@ == empty_context(),
            context_wf(r@),
    {
        let r = ChatContext { memory: Vec::new(), system_prompt: None };
        assert(r@.entries =~= Seq::<EntryView>::empty());
        r
    }

    /// Adds `chat`. A system directive replaces the active one and gets no
    /// index; any other entry goes to the end and its index is returned.
    /// Earlier entries keep their indices.
    pub fn add_chat_to_context(&mut self, chat: ChatHistoryItem) -> (r: Option<usize>)
        requires
            context_wf(old(self)@),
        ensures
            context_wf(final(self)@),
            final(self)@ == added(old(self)@, chat@),
            is_system(chat@) ==> r is None,
            !is_system(chat@) ==> r == Some(old(self)@.entries.len() as usize),
    {
        match chat {
            ChatHistoryItem::Chat(ChatData { role: ChatRole::System, text }) => {
                self.system_prompt = Some(text);
                None
            },
            _ => {
                let ghost e = chat@;
                self.memory.push(chat);
                assert(self@.entries =~= old(self)@.entries.push(e));
                Some(self.memory.len() - 1)
            },
        }
    }

    /// Adds `text` to the end of the chat entry at `index`. A file entry is
    /// left as it is; an index with no entry is an error and changes nothing.
    pub fn append_chat_in_context(&mut self, index: usize, text: &str) -> (r: Result<(), ContextError>)
        requires
            context_wf(old(self)@),
        ensures
            context_wf(final(self)@),
            final(self)@ == appended(old(self)@, index as int, text@),
            r is Err <==> index >= old(self)@.entries.len(),
            r is Err ==> r == Err::<(), ContextError>(ContextError::NoEntryAt(index)),
    {
        if index >= self.memory.len() {
            return Err(ContextError::NoEntryAt(index));
        }
        let mut item = self.memory.remove(index);
        match &mut item {
            ChatHistoryItem::FileUpload(_) => {},
            ChatHistoryItem::Chat(chat) => {
                chat.text.append(text);
            },
        }
        self.memory.insert(index, item);
        assert(self@.entries =~= appended(old(self)@, index as int, text@).entries);
        Ok(())
    }

    /// Makes `text` the active system directive, in place of any earlier one.
    pub fn set_system_directive(&mut self, text: String)
        requires
            context_wf(old(self)@),
        ensures
            context_wf(final(self)@),
            final(self)@ == (ContextView { entries: old(self)@.entries, system: Some(text@) }),
    {
        self.system_prompt = Some(text);
    }

    /// Records a finished exchange: the prompt, then the reply.
    pub fn update_memory(&mut self, prompt: String, response: String)
        requires
            context_wf(old(self)@),
        ensures
            context_wf(final(self)@),
            final(self)@ == (ContextView {
                entries: old(self)@.entries.push(chat_entry(ChatRole::User, prompt@)).push(
                    chat_entry(ChatRole::Model, response@),
                ),
                system: old(self)@.system,
            }),
    {
        self.memory.push(ChatHistoryItem::Chat(ChatData::user(prompt)));
        self.memory.push(ChatHistoryItem::Chat(ChatData::model(response)));
        assert(self@.entries =~= old(self)@.entries.push(chat_entry(ChatRole::User, prompt@)).push(
            chat_entry(ChatRole::Model, response@),
        ));
    }

    /// Empties the transcript and drops the active system directive.
    pub fn clear_history(&mut self)
        ensures
            context_wf(final(self)@),
            final(self)@ == empty_context(),
    {
        self.memory = Vec::new();
        self.system_prompt = None;
        assert(self@.entries =~= Seq::<EntryView>::empty());
    }

    /// The transcript, in insertion order.
    pub fn get_history(&self) -> (r: &Vec<ChatHistoryItem>)
        ensures
            entries_view(r@) == self@.entries,
    {
        &self.memory
    }

    /// The active system directive, if any.
    pub fn system_prompt(&self) -> (r: Option<String>)
        ensures
            opt_view(r) == self@.system,
    {
        copy_opt(&self.system_prompt)
    }

    /// A copy of the transcript and the active directive.
    pub fn snapshot(&self) -> (r: ContextSnapshot)
        ensures
            r@ == self@,
    {
        ContextSnapshot { entries: copy_entries(&self.memory), system_prompt: copy_opt(&self.system_prompt) }
    }
}

/// Clearing a context and then taking a copy of it gives an empty transcript
/// and no system directive, whatever the context held before: `cleared` is
/// what `clear_history` leaves, `snap` what `snapshot` then returns.
pub proof fn lemma_clear_then_snapshot(cleared: ContextView, snap: ContextView)
    requires
        cleared == empty_context(),
        snap == cleared,
    ensures
        snap.entries.len() == 0,
        snap.system is None,
{
}

} // verus!
