use vstd::prelude::*;

verus! {

/// One Server-Sent Events frame: an optional `event:` name, an optional
/// `id:` and the `data:` text. The HTTP layer turns it into its own event type.
#[derive(Clone, Debug)]
pub struct SseFrame {
    pub event: Option<String>,
    pub id: Option<String>,
    pub data: String,
}

/// The text of an optional string.
pub open spec fn opt_text(o: Option<String>) -> Option<Seq<char>> {
    match o {
        Some(s) => Some(s@),
        None => None,
    }
}

/// What a client's SSE stream does next: the frame it yields, if any, and
/// whether it ends.
pub struct ClientStep {
    pub frame: Option<SseFrame>,
    pub done: bool,
}

impl SseFrame {
    /// The frame seen as plain text values: `(event, id, data)`.
    pub open spec fn text(self) -> (Option<Seq<char>>, Option<Seq<char>>, Seq<char>) {
        (opt_text(self.event), opt_text(self.id), self.data@)
    }
}

} // verus!
