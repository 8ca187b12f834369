//! Typed slot composition: one primitive accepts another editorial
//! primitive as a typed child, so the child's kind can be counted and
//! audited without parsing rendered HTML.

use vstd::prelude::*;
use crate::components::card::KvPairCard;
use crate::components::code_shell::CodeShell;
use crate::components::picture::Picture;
use crate::components::pull_quote::PullQuote;
use crate::text::owned;

verus! {

/// Typed slot for editorial composition.
pub enum EditorialSlot<'a> {
    /// A dense info panel.
    KvPair(KvPairCard<'a>),
    /// An inline editorial quote.
    PullQuote(PullQuote<'a>),
    /// A terminal transcript.
    CodeShell(CodeShell<'a>),
    /// A responsive image.
    Picture(Picture<'a>),
    /// Pre-rendered markup — the escape hatch, counted against the
    /// page's typed-slot ratio.
    Raw(String),
}

/// The stable kind name of a slot.
pub open spec fn slot_kind(s: EditorialSlot) -> &'static str {
    match s {
        EditorialSlot::KvPair(_) => "kv-pair",
        EditorialSlot::PullQuote(_) => "pull-quote",
        EditorialSlot::CodeShell(_) => "code-shell",
        EditorialSlot::Picture(_) => "picture",
        EditorialSlot::Raw(_) => "raw",
    }
}

impl<'a> EditorialSlot<'a> {
    /// The markup of the slot: that of the primitive it holds, or the
    /// raw markup itself.
    pub open spec fn html(self) -> Seq<char> {
        match self {
            EditorialSlot::KvPair(c) => c.html(),
            EditorialSlot::PullQuote(q) => q.html(),
            EditorialSlot::CodeShell(s) => s.html(),
            EditorialSlot::Picture(p) => p.html(),
            EditorialSlot::Raw(m) => m@,
        }
    }

    /// Render the slot's primitive.
    pub fn render(&self) -> (r: String)
        ensures
            r@ == self.html(),
    {
        match self {
            EditorialSlot::KvPair(c) => c.render(),
            EditorialSlot::PullQuote(q) => q.render(),
            EditorialSlot::CodeShell(s) => s.render(),
            EditorialSlot::Picture(p) => p.render(),
            EditorialSlot::Raw(m) => owned(m.as_str()),
        }
    }

    /// Slot kind name, stable for telemetry and audit indexing.
    pub fn kind(&self) -> (r: &'static str)
        ensures
            r == slot_kind(*self),
    {
        match self {
            EditorialSlot::KvPair(_) => "kv-pair",
            EditorialSlot::PullQuote(_) => "pull-quote",
            EditorialSlot::CodeShell(_) => "code-shell",
            EditorialSlot::Picture(_) => "picture",
            EditorialSlot::Raw(_) => "raw",
        }
    }

    /// `true` iff the slot holds a typed primitive, not raw markup.
    pub fn is_typed_primitive(&self) -> (r: bool)
        ensures
            r == !(*self is Raw),
    {
        match self {
            EditorialSlot::Raw(_) => false,
            _ => true,
        }
    }
}

} // verus!
