//! The page selector's state and its transitions.

use vstd::prelude::*;

use crate::window::{
    PageWindow, WINDOW, count_of, initial, links, max_offset, next, outcome, page_links,
};

verus! {

/// What the selector reacts to.
#[derive(Clone, Copy, Debug, PartialEq, Eq, Structural)]
pub enum Message {
    /// Move the window by one page, or to the first or last window.
    Scroll { left: bool, to_end: bool },
    /// A page link was clicked.
    SelectPage(u32),
    /// The thread changed in the shared state.
    ThreadUpdate,
    NOP,
}

/// Input of the selector: the thread whose pages it lists.
#[derive(Clone, Copy, Debug, PartialEq, Eq, Structural)]
pub struct Props {
    pub thread: u64,
}

/// Result of handling one message.
#[derive(Clone, Copy, Debug, PartialEq, Eq, Structural)]
pub struct Outcome {
    /// Whether the selector must be rendered again.
    pub changed: bool,
    /// Page to navigate the thread view to, if any.
    pub navigate: Option<u32>,
}

/// State of a page selector.
pub struct Inner {
    offset: u32,
    page_count: u64,
}

/// Highest offset that still leaves a full trailing window of pages.
fn max_offset_of(page_count: u64) -> (r: u64)
    ensures
        r as nat == max_offset(page_count as nat),
{
    if page_count > WINDOW {
        page_count - WINDOW
    } else {
        0
    }
}

impl Inner {
    /// The abstract state.
    pub closed spec fn window(&self) -> PageWindow {
        PageWindow { offset: self.offset as nat, page_count: self.page_count as nat }
    }

    /// Message that the selector receives when its thread changes.
    pub fn update_message() -> (r: Message)
        ensures
            r == Message::ThreadUpdate,
    {
        Message::ThreadUpdate
    }

    #[verifier::type_invariant]
    spec fn inv(self) -> bool {
        self.window().wf()
    }

    /// Selector as mounted, for a thread whose last known page index is
    /// `last_page` (`None`: the thread is not in the shared state).
    pub fn new(last_page: Option<u32>) -> (r: Inner)
        ensures
            r.window() == initial(last_page),
            r.window().wf(),
    {
        Inner { offset: 0, page_count: Self::page_count_of(last_page) }
    }

    fn page_count_of(last_page: Option<u32>) -> (r: u64)
        ensures
            r as nat == count_of(last_page),
    {
        match last_page {
            Some(l) => l as u64 + 1,
            None => 1,
        }
    }

    /// Index of the first page shown.
    pub fn offset(&self) -> (r: u32)
        ensures
            r as nat == self.window().offset,
            r as nat <= max_offset(self.window().page_count),
    {
        proof { use_type_invariant(self); }
        self.offset
    }

    /// Number of pages in the thread.
    pub fn page_count(&self) -> (r: u64)
        ensures
            r as nat == self.window().page_count,
            r >= 1,
    {
        proof { use_type_invariant(self); }
        self.page_count
    }

    /// Sets the page count from the thread's last known page index, and
    /// pulls the offset back if the thread got shorter than the window.
    pub fn fetch_page_count(&mut self, last_page: Option<u32>)
        ensures
            final(self).window() == next(old(self).window(), Message::ThreadUpdate, last_page),
            final(self).window().wf(),
    {
        proof { use_type_invariant(&*self); }
        let page_count = Self::page_count_of(last_page);
        let max = max_offset_of(page_count);
        let offset = if (self.offset as u64) <= max { self.offset } else { max as u32 };
        *self = Inner { offset, page_count };
    }

    /// Handles one message; `last_page` is what the shared state holds for
    /// the thread now, read only on `ThreadUpdate`.
    pub fn update(&mut self, msg: Message, last_page: Option<u32>) -> (r: Outcome)
        ensures
            final(self).window() == next(old(self).window(), msg, last_page),
            final(self).window().wf(),
            r == outcome(old(self).window(), msg, last_page),
    {
        proof { use_type_invariant(&*self); }
        match msg {
            Message::Scroll { left, to_end } => {
                let old_offset = self.offset;
                let max = max_offset_of(self.page_count);
                let offset: u32 = if to_end {
                    if left { 0 } else { max as u32 }
                } else if left {
                    if self.offset > 0 { self.offset - 1 } else { self.offset }
                } else {
                    if (self.offset as u64) < max { self.offset + 1 } else { self.offset }
                };
                *self = Inner { offset, page_count: self.page_count };
                Outcome { changed: offset != old_offset, navigate: None }
            },
            Message::SelectPage(n) => {
                let shown = self.offset <= n && (n as u64) < self.page_count;
                Outcome { changed: false, navigate: if shown { Some(n) } else { None } }
            },
            Message::ThreadUpdate => {
                let old_offset = self.offset;
                let old_count = self.page_count;
                self.fetch_page_count(last_page);
                Outcome {
                    changed: self.offset != old_offset || self.page_count != old_count,
                    navigate: None,
                }
            },
            Message::NOP => Outcome { changed: false, navigate: None },
        }
    }

    /// Every link of the selector, left to right, as the message that
    /// clicking it sends: jump to start, one step left (only with more pages
    /// than the window), each page from the offset to the last, one step
    /// right (same condition), jump to end.
    pub fn view(&self) -> (r: Vec<Message>)
        ensures
            r@ == links(self.window()),
    {
        proof { use_type_invariant(self); }
        let w = Ghost(self.window());
        let scrollable = self.page_count > WINDOW;
        let mut r: Vec<Message> = Vec::new();
        r.push(Message::Scroll { left: true, to_end: true });
        if scrollable {
            r.push(Message::Scroll { left: true, to_end: false });
        }
        let head = Ghost(r@);
        let mut i: u64 = self.offset as u64;
        while i < self.page_count
            invariant
                w@ == self.window(),
                w@.wf(),
                self.offset as u64 <= i <= self.page_count,
                r@.len() == head@.len() + (i - self.offset),
                forall|k: int| 0 <= k < head@.len() ==> #[trigger] r@[k] == head@[k],
                forall|k: int|
                    0 <= k < i - self.offset ==> #[trigger] r@[head@.len() + k]
                        == Message::SelectPage((self.offset + k) as u32),
            decreases self.page_count - i,
        {
            r.push(Message::SelectPage(i as u32));
            i = i + 1;
        }
        proof {
            let pages = page_links(w@);
            assert(pages.len() == i - self.offset);
            assert forall|k: int| 0 <= k < r@.len() implies #[trigger] r@[k] == (head@ + pages)[k] by {
                if k >= head@.len() {
                    assert(r@[head@.len() + (k - head@.len())] == pages[k - head@.len()]);
                }
            }
            assert(r@ =~= head@ + pages);
        }
        if scrollable {
            r.push(Message::Scroll { left: false, to_end: false });
        }
        r.push(Message::Scroll { left: false, to_end: true });
        proof {
            assert(r@ =~= links(w@));
        }
        r
    }
}

} // verus!
