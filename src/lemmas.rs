//! Facts about the selector's model that span several messages or states.

use vstd::prelude::*;

use crate::selector::Message;
use crate::window::{PageWindow, initial, links, max_offset, next, outcome, scrolled};

verus! {

/// The window never leaves its bounds: a freshly mounted selector is well
/// formed, every message keeps it so, and the highest offset is the page
/// count less the window width, or zero.
pub proof fn lemma_window_stays_in_bounds(w: PageWindow, msg: Message, last_page: Option<u32>)
    requires
        w.wf(),
    ensures
        initial(last_page).wf(),
        next(w, msg, last_page).wf(),
        0 <= next(w, msg, last_page).offset <= max_offset(next(w, msg, last_page).page_count),
        max_offset(w.page_count) == if w.page_count > 5 { w.page_count - 5 } else { 0 },
{
}

/// Scrolling one step past either end changes nothing and asks for no
/// new render.
pub proof fn lemma_scroll_at_boundary(w: PageWindow, last_page: Option<u32>)
    requires
        w.wf(),
    ensures
        w.offset == 0 ==> {
            let m = Message::Scroll { left: true, to_end: false };
            next(w, m, last_page) == w && !outcome(w, m, last_page).changed
        },
        w.offset == max_offset(w.page_count) ==> {
            let m = Message::Scroll { left: false, to_end: false };
            next(w, m, last_page) == w && !outcome(w, m, last_page).changed
        },
{
}

/// Jumping left lands on the first window, jumping right on the last one,
/// from any offset.
pub proof fn lemma_jump_to_end(w: PageWindow)
    ensures
        scrolled(w, true, true).offset == 0,
        scrolled(w, false, true).offset == max_offset(w.page_count),
        scrolled(w, true, true).page_count == w.page_count,
        scrolled(w, false, true).page_count == w.page_count,
{
}

/// A thread update sets the page count to one past the last page index,
/// or to one for an absent thread, and asks for a render exactly when the
/// page count moved.
pub proof fn lemma_refresh(w: PageWindow, last_page: Option<u32>)
    requires
        w.wf(),
    ensures
        next(w, Message::ThreadUpdate, last_page).page_count == match last_page {
            Some(l) => l as nat + 1,
            None => 1nat,
        },
        outcome(w, Message::ThreadUpdate, last_page).changed
            <==> next(w, Message::ThreadUpdate, last_page).page_count != w.page_count,
{
}

/// The page links rendered are exactly the pages from the offset up to the
/// last page, ascending, each once, between the left controls and the
/// right ones; no other link selects a page.
pub proof fn lemma_rendered_pages(w: PageWindow)
    requires
        w.wf(),
    ensures
        ({
            let s = links(w);
            let h: int = if w.scrollable() { 2 } else { 1 };
            let n: int = w.page_count - w.offset;
            &&& s.len() == 2 * h + n
            &&& forall|k: int| 0 <= k < n ==> #[trigger] s[h + k] == Message::SelectPage((w.offset + k) as u32)
            &&& forall|j: int| 0 <= j < s.len() && (s[j] is SelectPage) ==> h <= j < h + n
            &&& forall|j: int| #![trigger s[j]] 0 <= j < s.len() && (s[j] is SelectPage) ==> {
                let p = s[j]->SelectPage_0;
                w.offset <= p < w.page_count && p == w.offset + (j - h)
            }
            &&& forall|i: int, j: int| #![trigger s[i], s[j]]
                0 <= i < j < s.len() && (s[i] is SelectPage) && (s[j] is SelectPage)
                    ==> s[i]->SelectPage_0 < s[j]->SelectPage_0
        }),
{
    let s = links(w);
    let h: int = if w.scrollable() { 2 } else { 1 };
    assert forall|j: int| #![trigger s[j]] 0 <= j < s.len() && (s[j] is SelectPage) implies
        h <= j < h + (w.page_count - w.offset)
        && w.offset <= s[j]->SelectPage_0 < w.page_count
        && s[j]->SelectPage_0 == w.offset + (j - h) by {
    }
}

} // verus!
