//! The mathematical model of the selector: a window over the pages of a
//! thread, and what each message does to it.

use vstd::prelude::*;

use crate::selector::{Message, Outcome};

verus! {

/// Number of page links shown at once when a thread has more pages than that.
pub const WINDOW: u64 = 5;

/// Abstract state of a page selector.
pub struct PageWindow {
    /// Index of the first page shown.
    pub offset: nat,
    /// Number of pages in the thread.
    pub page_count: nat,
}

/// Highest offset that still leaves a full trailing window of pages.
pub open spec fn max_offset(page_count: nat) -> nat {
    if page_count > WINDOW as nat {
        (page_count - WINDOW as nat) as nat
    } else {
        0
    }
}

/// Page count of a thread whose last known page index is `last_page`;
/// a thread absent from the shared state counts one page.
pub open spec fn count_of(last_page: Option<u32>) -> nat {
    match last_page {
        Some(l) => l as nat + 1,
        None => 1,
    }
}

impl PageWindow {
    /// At least one page, page indices fit in `u32`, and the window starts
    /// no later than the last full window.
    pub open spec fn wf(self) -> bool {
        &&& 1 <= self.page_count <= u32::MAX as nat + 1
        &&& self.offset <= max_offset(self.page_count)
    }

    /// Whether the one-step scroll controls are shown.
    pub open spec fn scrollable(self) -> bool {
        self.page_count > WINDOW as nat
    }
}

/// State right after mounting.
pub open spec fn initial(last_page: Option<u32>) -> PageWindow {
    PageWindow { offset: 0, page_count: count_of(last_page) }
}

/// Effect of a scroll message.
pub open spec fn scrolled(w: PageWindow, left: bool, to_end: bool) -> PageWindow {
    let max = max_offset(w.page_count);
    let offset = if to_end {
        if left { 0 } else { max }
    } else if left {
        if w.offset > 0 { (w.offset - 1) as nat } else { w.offset }
    } else {
        if w.offset < max { w.offset + 1 } else { w.offset }
    };
    PageWindow { offset, page_count: w.page_count }
}

/// Effect of re-reading the page count: the offset is kept unless it would
/// pass the new last window.
pub open spec fn refreshed(w: PageWindow, last_page: Option<u32>) -> PageWindow {
    let page_count = count_of(last_page);
    let max = max_offset(page_count);
    PageWindow { offset: if w.offset <= max { w.offset } else { max }, page_count }
}

/// State after handling `msg`, where `last_page` is what the shared state
/// holds for the thread at that moment.
pub open spec fn next(w: PageWindow, msg: Message, last_page: Option<u32>) -> PageWindow {
    match msg {
        Message::Scroll { left, to_end } => scrolled(w, left, to_end),
        Message::ThreadUpdate => refreshed(w, last_page),
        Message::SelectPage(_) | Message::NOP => w,
    }
}

/// The page that a message asks to navigate to: only a shown page counts.
pub open spec fn navigation(w: PageWindow, msg: Message) -> Option<u32> {
    match msg {
        Message::SelectPage(n) => if w.offset <= n < w.page_count { Some(n) } else { None },
        _ => None,
    }
}

/// Result of handling `msg`: render again exactly when the state moved.
pub open spec fn outcome(w: PageWindow, msg: Message, last_page: Option<u32>) -> Outcome {
    Outcome { changed: next(w, msg, last_page) != w, navigate: navigation(w, msg) }
}

/// Page links from the offset to the last page, in ascending order.
pub open spec fn page_links(w: PageWindow) -> Seq<Message> {
    let n: nat = if w.offset <= w.page_count { (w.page_count - w.offset) as nat } else { 0 };
    Seq::new(n, |i: int| Message::SelectPage((w.offset + i) as u32))
}

/// The one-step control in the given direction, when shown.
pub open spec fn step_control(w: PageWindow, left: bool) -> Seq<Message> {
    if w.scrollable() {
        seq![Message::Scroll { left, to_end: false }]
    } else {
        seq![]
    }
}

/// Every link of the rendered selector, left to right, as the message that
/// clicking it sends.
pub open spec fn links(w: PageWindow) -> Seq<Message> {
    seq![Message::Scroll { left: true, to_end: true }]
        + step_control(w, true)
        + page_links(w)
        + step_control(w, false)
        + seq![Message::Scroll { left: false, to_end: true }]
}

} // verus!
