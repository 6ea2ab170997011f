//! Optional provider behaviours that the user can switch on and off.
use vstd::prelude::*;

use crate::configuration::{search_default_of, Configuration};

verus! {

/// Capability flags sent along with each request.
#[derive(Debug, Clone, Copy, PartialEq, Eq, Structural)]
pub struct LLMTools {
    pub search: bool,
}

/// The flags that the tool overlay lists, in display order.
#[derive(Debug, Clone, Copy, PartialEq, Eq, Structural)]
pub enum LlmToolEnum {
    Search,
}

/// Number of entries in the tool overlay.
pub const TOOL_COUNT: usize = 1;

/// `t` with the flag that `item` names flipped.
pub open spec fn toggled(t: LLMTools, item: LlmToolEnum) -> LLMTools {
    match item {
        LlmToolEnum::Search => LLMTools { search: !t.search },
    }
}

/// `t` after the flags of `other` that are on have been switched on.
pub open spec fn merged(t: LLMTools, other: LLMTools) -> LLMTools {
    LLMTools { search: t.search || other.search }
}

impl LLMTools {
    /// The flags that `config` asks for by default.
    pub fn new(config: &Configuration) -> (r: LLMTools)
        ensures
            r.search == search_default_of(config),
    {
        let search = match &config.tools {
            Some(t) => match t.search_default {
                Some(b) => b,
                None => false,
            },
            None => false,
        };
        LLMTools { search }
    }

    /// Every flag off.
    pub fn none() -> (r: LLMTools)
        ensures
            !r.search,
    {
        LLMTools { search: false }
    }

    /// Switches on each flag that is on in `tool_flags`; a flag that is on
    /// here stays on.
    pub fn merge(&mut self, tool_flags: &LLMTools)
        ensures
            *final(self) == merged(*old(self), *tool_flags),
    {
        if tool_flags.search {
            self.search = true;
        }
    }

    /// Whether the flag that `item` names is on.
    pub fn is_on(&self, item: LlmToolEnum) -> (r: bool)
        ensures
            r == match item {
                LlmToolEnum::Search => self.search,
            },
    {
        match item {
            LlmToolEnum::Search => self.search,
        }
    }

    /// Flips the flag that `item` names and leaves the others alone.
    pub fn toggle(&mut self, item: LlmToolEnum)
        ensures
            *final(self) == toggled(*old(self), item),
    {
        match item {
            LlmToolEnum::Search => {
                self.search = !self.search;
            },
        }
    }
}

/// The overlay entry at position `i`, if there is one.
pub open spec fn tool_at(i: int) -> Option<LlmToolEnum> {
    if i == 0 {
        Some(LlmToolEnum::Search)
    } else {
        None
    }
}

/// An overlay entry together with the flags it shows.
#[derive(Debug, Clone, Copy)]
pub struct LlmToolItem {
    pub llm_item: LlmToolEnum,
    pub llm_tools: LLMTools,
}

impl LlmToolEnum {
    /// The entry at position `repr` of the overlay.
    pub fn from_repr(repr: usize) -> (r: Option<LlmToolEnum>)
        ensures
            r == tool_at(repr as int),
    {
        if repr == 0 {
            Some(LlmToolEnum::Search)
        } else {
            None
        }
    }

    /// Every entry, in display order.
    pub fn all() -> (r: Vec<LlmToolEnum>)
        ensures
            r@.len() == TOOL_COUNT,
            forall|i: int| 0 <= i < r@.len() ==> tool_at(i) == Some(#[trigger] r@[i]),
    {
        let r = vec![LlmToolEnum::Search];
        assert(r@[0] == LlmToolEnum::Search);
        r
    }

    /// This entry, paired with the flags it is to show.
    pub fn with_context(self, llm_tools: &LLMTools) -> (r: LlmToolItem)
        ensures
            r.llm_item == self,
            r.llm_tools == *llm_tools,
    {
        LlmToolItem { llm_item: self, llm_tools: *llm_tools }
    }

    /// The name the overlay shows for this entry.
    pub fn display_name(&self) -> (r: &'static str)
        ensures
            *self == LlmToolEnum::Search ==> r@ == "Web Search"@,
    {
        match self {
            LlmToolEnum::Search => "Web Search",
        }
    }
}

impl LlmToolItem {
    /// Whether the flag of this entry is on.
    pub fn activated(&self) -> (r: bool)
        ensures
            r == match self.llm_item {
                LlmToolEnum::Search => self.llm_tools.search,
            },
    {
        self.llm_tools.is_on(self.llm_item)
    }
}

/// Flipping the same flag twice gives back the flags one started from.
pub proof fn lemma_toggle_involution(t: LLMTools, item: LlmToolEnum)
    ensures
        toggled(toggled(t, item), item) == t,
{
}

} // verus!
