//! What the watcher hands to its caller, and what the caller answers.

use vstd::prelude::*;

verus! {

/// The texts that a sequence of strings holds, in the same order.
pub open spec fn texts(items: Seq<String>) -> Seq<Seq<char>> {
    items.map_values(|item: String| item@)
}

/// One detected change of the clipboard: the format identifiers that the new
/// content is offered in, in the order they were advertised. Duplicates are
/// kept. The content itself is never part of it.
#[derive(Clone, Debug, PartialEq, Eq)]
pub struct ClipboardChangeEvent {
    pub formats: Vec<String>,
}

impl View for ClipboardChangeEvent {
    type V = Seq<Seq<char>>;

    open spec fn view(&self) -> Seq<Seq<char>> {
        texts(self.formats@)
    }
}

/// The caller's answer to a delivered change or error.
#[derive(Clone, Copy, Debug, PartialEq, Eq, Structural)]
pub enum HandlerDirective {
    /// Keep watching.
    Continue,
    /// End the watch loop.
    Stop,
}

} // verus!
