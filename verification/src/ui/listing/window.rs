//! The mathematics of the page: what scrolling, resizing and eviction do
//! to the window, and what always holds of them.

use vstd::prelude::*;
use vstd::arithmetic::div_mod::{
    lemma_fundamental_div_mod,
    lemma_fundamental_div_mod_converse,
};
use lemmy_api_common::lemmy_db_views::structs::PaginationCursor;
use crate::action::Action;
use crate::ui::layout::{stacked_in, Rect};
use crate::ui::listing::lemmynator_post::LemmynatorPost;

verus! {

/// `PaginationCursor` of `lemmy_api_common`: the cursor that the feed hands
/// out with each batch. The page keeps it and gives it back; nothing is
/// known or claimed of what it holds.
#[verifier::external_type_specification]
#[verifier::external_body]
pub struct ExPaginationCursor(PaginationCursor);

/// Screen rows that one slot of the window takes.
pub const ROWS_PER_SLOT: u16 = 8;

/// The page index beyond which posts far behind the window are dropped.
pub const RETAINED_PAGES: usize = 3;

/// How many pages' worth of posts one eviction drops.
pub const EVICTED_PAGES: usize = 2;

/// How many slots fit in `height` rows. The count is kept in one byte: a
/// quotient of 256 or more wraps around.
pub open spec fn slots_for(height: u16) -> nat {
    ((height / ROWS_PER_SLOT) % 256) as nat
}

/// Where one visible post goes.
#[derive(Clone, Copy, Debug, PartialEq, Eq, Structural)]
pub struct Placement {
    /// Index of the post among the posts of the page.
    pub index: usize,
    /// The area the post is drawn in.
    pub rect: Rect,
    /// Whether the post is drawn as the one in focus.
    pub focused: bool,
}

/// The total height of `rects`.
pub open spec fn occupied(rects: Seq<Rect>) -> nat
    decreases rects.len(),
{
    if rects.len() == 0 {
        0
    } else {
        occupied(rects.drop_last()) + rects.last().height as nat
    }
}

/// Whether `rects`, laid out in `height` rows, leave more rows free than
/// there are areas: room for one row of padding above each.
pub open spec fn room_for_padding(rects: Seq<Rect>, height: u16) -> bool {
    height - occupied(rects) > rects.len()
}

/// The mathematical content of a page.
pub struct PageView {
    /// The posts that are held, oldest first.
    pub posts: Seq<LemmynatorPost>,
    /// The cursor for the next batch; `None` when there is none.
    pub next_page: Option<PaginationCursor>,
    /// Index in `posts` of the first post of the window.
    pub offset: nat,
    /// The row of the window that has the focus.
    pub focused: nat,
    /// How many posts the window shows at once.
    pub capacity: nat,
}

impl PageView {
    /// The window starts inside the feed or right at its end, and the focus
    /// is on a row of the window (on row 0 of a window without rows).
    pub open spec fn wf(self) -> bool {
        &&& self.offset <= self.posts.len()
        &&& (self.focused < self.capacity || (self.capacity == 0 && self.focused == 0))
    }

    /// How many posts the window shows now: a full window, or what is left
    /// of the feed from `offset` on.
    pub open spec fn visible(self) -> nat {
        if self.offset + self.capacity <= self.posts.len() {
            self.capacity
        } else {
            (self.posts.len() - self.offset) as nat
        }
    }

    /// The focus is on the last row and the feed does not reach the start
    /// of a further window: scrolling down stalls here.
    pub open spec fn at_end(self) -> bool {
        &&& self.focused + 1 >= self.capacity
        &&& self.offset + self.capacity > self.posts.len()
    }

    /// One step down. The focus moves to the next row; from the last row the
    /// window moves on by its capacity and the focus goes to its first row,
    /// as long as the new window starts inside the feed or right at its end.
    /// Otherwise nothing moves.
    pub open spec fn scroll_down(self) -> PageView {
        if self.focused + 1 < self.capacity {
            PageView { focused: self.focused + 1, ..self }
        } else if self.offset + self.capacity <= self.posts.len() {
            PageView { offset: self.offset + self.capacity, focused: 0, ..self }
        } else {
            self
        }
    }

    /// One step up. The focus moves to the previous row; from the first row
    /// the window moves back by its capacity, no further than the start of
    /// the feed, and the focus goes to its last row. At the very start
    /// nothing moves.
    pub open spec fn scroll_up(self) -> PageView {
        if self.focused == 0 && self.offset != 0 {
            PageView {
                offset: if self.offset >= self.capacity {
                    (self.offset - self.capacity) as nat
                } else {
                    0
                },
                focused: if self.capacity == 0 {
                    0
                } else {
                    (self.capacity - 1) as nat
                },
                ..self
            }
        } else if self.focused != 0 {
            PageView { focused: (self.focused - 1) as nat, ..self }
        } else {
            self
        }
    }

    /// `count` steps down.
    pub open spec fn scroll_down_times(self, count: nat) -> PageView
        decreases count,
    {
        if count == 0 {
            self
        } else {
            self.scroll_down_times((count - 1) as nat).scroll_down()
        }
    }

    /// `count` steps up.
    pub open spec fn scroll_up_times(self, count: nat) -> PageView
        decreases count,
    {
        if count == 0 {
            self
        } else {
            self.scroll_up().scroll_up_times((count - 1) as nat)
        }
    }

    /// The page after it took `action`: the two scrolling actions move it,
    /// any other leaves it as it is.
    pub open spec fn handled(self, action: Action) -> PageView {
        match action {
            Action::Up => self.scroll_up(),
            Action::Down => self.scroll_down(),
            _ => self,
        }
    }

    /// What the page answers to `action`: a request to redraw after
    /// scrolling, nothing for an action it does not know.
    pub open spec fn reply_to(action: Action) -> Option<Action> {
        match action {
            Action::Up | Action::Down => Some(Action::Render),
            _ => None,
        }
    }

    /// The page with a window of `capacity` rows. A focus that the new
    /// window no longer has moves to its last row.
    pub open spec fn resized(self, capacity: nat) -> PageView {
        PageView {
            capacity,
            focused: if capacity == 0 {
                0
            } else if self.focused >= capacity {
                (capacity - 1) as nat
            } else {
                self.focused
            },
            ..self
        }
    }

    /// The index of the page that the window shows, counted from 0.
    pub open spec fn page_index(self) -> nat
        recommends
            self.capacity > 0,
    {
        self.offset / self.capacity
    }

    /// Whether the window is far enough into the feed for the oldest posts
    /// to be dropped.
    pub open spec fn evicts(self) -> bool {
        self.capacity > 0 && self.page_index() > RETAINED_PAGES
    }

    /// How many posts an eviction drops from the front.
    pub open spec fn evicted_count(self) -> nat {
        if self.evicts() {
            EVICTED_PAGES as nat * self.capacity
        } else {
            0
        }
    }

    /// The page after eviction: the oldest posts are gone and the window
    /// has moved back by as many, so that it shows the same posts.
    pub open spec fn evicted(self) -> PageView {
        PageView {
            posts: self.posts.skip(self.evicted_count() as int),
            offset: (self.offset - self.evicted_count()) as nat,
            ..self
        }
    }

    /// The page after it was rendered into `height` rows: the capacity is
    /// taken from the height, then the oldest posts are evicted if the
    /// window is far enough into the feed.
    pub open spec fn rendered(self, height: u16) -> PageView {
        self.resized(slots_for(height)).evicted()
    }

    /// How many posts lie beyond the window: those that were appended and
    /// have not been reached yet.
    pub open spec fn beyond_window(self) -> nat {
        (self.posts.len() - self.offset - self.visible()) as nat
    }

    /// Whether the window starts on a page boundary: at a multiple of its
    /// capacity.
    pub open spec fn on_page_boundary(self) -> bool {
        self.capacity > 0 && self.offset % self.capacity == 0
    }

    /// The posts that the window shows.
    pub open spec fn window(self) -> Seq<LemmynatorPost> {
        self.posts.subrange(self.offset as int, (self.offset + self.visible()) as int)
    }

    /// The rows that each visible post asks for, from the first row of the
    /// window down.
    pub open spec fn rows_asked(self) -> Seq<u16> {
        Seq::new(self.visible(), |i: int| self.posts[self.offset + i].rows())
    }

    /// Where the visible posts go when `rects` are the areas made for them:
    /// post by post and area by area, as far as both reach. With `padded`,
    /// the area in row `i` is moved down by `i + 1` rows. The post in the
    /// focused row, and no other, is marked as in focus.
    pub open spec fn placed(self, rects: Seq<Rect>, padded: bool) -> Seq<Placement> {
        Seq::new(
            if self.visible() <= rects.len() {
                self.visible()
            } else {
                rects.len()
            },
            |i: int|
                Placement {
                    index: (self.offset + i) as usize,
                    rect: if padded {
                        rects[i].lowered(i + 1)
                    } else {
                        rects[i]
                    },
                    focused: i == self.focused,
                },
        )
    }

    /// Whether `scene` lays the window out in `rect`: it is what
    /// [`PageView::placed`] makes of some areas, one per visible post,
    /// stacked in `rect` from top to bottom, padded exactly if these areas
    /// leave room for it.
    pub open spec fn laid_out(self, rect: Rect, scene: Seq<Placement>) -> bool {
        exists|rects: Seq<Rect>|
            {
                &&& rects.len() == self.visible()
                &&& stacked_in(rects, rect)
                &&& scene == #[trigger] self.placed(rects, room_for_padding(rects, rect.height))
            }
    }

    /// The number shown for the current page, counted from 1.
    pub open spec fn page_number(self) -> nat
        recommends
            self.capacity > 0,
    {
        self.offset / self.capacity + 1
    }
}

/// Going from `count - 1` to `count` steps either moves on within a page or
/// starts the next one.
proof fn lemma_step_div_mod(count: nat, capacity: nat)
    requires
        count > 0,
        capacity > 0,
    ensures
        ((count - 1) % (capacity as int)) + 1 < capacity ==> {
            &&& count % capacity == ((count - 1) % (capacity as int)) + 1
            &&& count / capacity == (count - 1) / (capacity as int)
        },
        ((count - 1) % (capacity as int)) + 1 >= capacity ==> {
            &&& count % capacity == 0
            &&& count / capacity == (count - 1) / (capacity as int) + 1
        },
{
    let c = capacity as int;
    let q = (count - 1) / c;
    let r = (count - 1) % c;
    lemma_fundamental_div_mod(count - 1, c);
    assert(c * q == q * c) by (nonlinear_arith);
    if r + 1 < c {
        lemma_fundamental_div_mod_converse(count as int, c, q, r + 1);
    } else {
        assert((q + 1) * c == q * c + c) by (nonlinear_arith);
        lemma_fundamental_div_mod_converse(count as int, c, q + 1, 0);
    }
}

/// Scrolling keeps a well-formed page well-formed.
pub proof fn lemma_scrolling_keeps_wf(page: PageView)
    requires
        page.wf(),
    ensures
        page.scroll_down().wf(),
        page.scroll_up().wf(),
{
}

/// From a page at its very start, with a window of `capacity` rows over
/// `len` posts, `count` steps down lead to row `count mod capacity` of the
/// window that starts at `capacity * floor(count / capacity)`, as long as
/// that start does not exceed `len`. Beyond that, scrolling has stalled on
/// the last row of the last window: the page is where the greatest such
/// `count`, namely `capacity * floor(len / capacity) + capacity - 1`, led.
/// The window never starts beyond the feed, and the posts stay as they are.
pub proof fn lemma_scroll_down_from_start(page: PageView, count: nat)
    requires
        page.wf(),
        page.offset == 0,
        page.focused == 0,
        page.capacity > 0,
    ensures
        ({
            let capacity = page.capacity as int;
            let len = page.posts.len() as int;
            let last = capacity * (len / capacity) + capacity - 1;
            let steps = if count <= last {
                count as int
            } else {
                last
            };
            let after = page.scroll_down_times(count);
            &&& capacity * (count as int / capacity) <= len <==> count <= last
            &&& after.focused == steps % capacity
            &&& after.offset == capacity * (steps / capacity)
            &&& after.offset <= len
            &&& after == PageView { offset: after.offset, focused: after.focused, ..page }
        }),
    decreases count,
{
    let c = page.capacity as int;
    let len = page.posts.len() as int;
    let pages = len / c;
    let last = c * pages + c - 1;
    let after = page.scroll_down_times(count);
    lemma_fundamental_div_mod(len, c);
    vstd::arithmetic::div_mod::lemma_mod_pos_bound(len, c);
    assert(pages * c == c * pages) by (nonlinear_arith);
    assert((pages + 1) * c == c * pages + c) by (nonlinear_arith);
    lemma_fundamental_div_mod_converse(last, c, pages, c - 1);
    lemma_fundamental_div_mod_converse(last + 1, c, pages + 1, 0);
    // the window of step `count` starts inside the feed exactly up to `last`
    if count <= last {
        vstd::arithmetic::div_mod::lemma_div_is_ordered(count as int, last, c);
        assert(c * (count as int / c) <= c * pages) by (nonlinear_arith)
            requires
                count as int / c <= pages,
                c > 0,
        ;
    } else {
        vstd::arithmetic::div_mod::lemma_div_is_ordered(last + 1, count as int, c);
        assert(c * (count as int / c) >= c * pages + c) by (nonlinear_arith)
            requires
                count as int / c >= pages + 1,
                c > 0,
        ;
        assert(c * (count as int / c) > len);
    }
    if count == 0 {
        lemma_fundamental_div_mod_converse(0, c, 0, 0);
        assert(c * 0 == 0) by (nonlinear_arith);
    } else {
        let before = page.scroll_down_times((count - 1) as nat);
        lemma_scroll_down_from_start(page, (count - 1) as nat);
        assert(after == before.scroll_down());
        if count - 1 < last {
            lemma_step_div_mod(count, page.capacity);
            let q = (count - 1) / c;
            assert(before.focused == (count - 1) % c);
            assert(before.offset == c * q);
            if before.focused + 1 < c {
                assert(after.focused == count as int % c);
                assert(after.offset == c * (count as int / c));
            } else {
                assert(c * (q + 1) == c * q + c) by (nonlinear_arith);
                assert(count as int / c == q + 1);
                assert(before.offset + c <= len);
                assert(after.focused == 0);
                assert(after.offset == c * (count as int / c));
            }
        } else {
            assert(before.focused == c - 1);
            assert(before.offset == c * pages);
            assert(after == before);
        }
    }
}

/// A step up takes back a step down: wherever the step down moved
/// anything, and at the very start of the feed, the page is again what it
/// was. Left out is the end of the feed, where the step down stalls and
/// the step up then leaves the last row.
pub proof fn lemma_scroll_up_undoes_scroll_down(page: PageView)
    requires
        page.wf(),
        !page.at_end() || (page.offset == 0 && page.focused == 0),
    ensures
        page.scroll_down().scroll_up() == page,
{
}

/// At the very start of the feed a step up changes nothing.
pub proof fn lemma_scroll_up_at_start(page: PageView)
    requires
        page.offset == 0,
        page.focused == 0,
    ensures
        page.scroll_up() == page,
{
}

/// Once scrolling down has stalled it stays stalled.
proof fn lemma_end_is_final(page: PageView, count: nat)
    requires
        page.wf(),
        page.at_end(),
    ensures
        page.scroll_down_times(count) == page,
    decreases count,
{
    if count > 0 {
        lemma_end_is_final(page, (count - 1) as nat);
    }
}

/// Steps down keep a well-formed page well-formed.
pub proof fn lemma_scroll_down_times_keeps_wf(page: PageView, count: nat)
    requires
        page.wf(),
    ensures
        page.scroll_down_times(count).wf(),
    decreases count,
{
    if count > 0 {
        lemma_scroll_down_times_keeps_wf(page, (count - 1) as nat);
    }
}

/// As many steps up as steps down lead back to where the page was, provided
/// the last step down did not find scrolling stalled.
pub proof fn lemma_scroll_round_trip(page: PageView, count: nat)
    requires
        page.wf(),
        count > 0 ==> !page.scroll_down_times((count - 1) as nat).at_end(),
    ensures
        page.scroll_down_times(count).scroll_up_times(count) == page,
    decreases count,
{
    if count > 0 {
        let before = page.scroll_down_times((count - 1) as nat);
        lemma_scroll_down_times_keeps_wf(page, (count - 1) as nat);
        lemma_scroll_up_undoes_scroll_down(before);
        if count > 1 {
            let earlier = page.scroll_down_times((count - 2) as nat);
            lemma_scroll_down_times_keeps_wf(page, (count - 2) as nat);
            if earlier.at_end() {
                lemma_end_is_final(earlier, 1);
                assert(earlier.scroll_down_times(1) == earlier.scroll_down_times(0).scroll_down());
                assert(before == earlier);
            }
        }
        lemma_scroll_round_trip(page, (count - 1) as nat);
    }
}

/// Dropping two pages from the front takes the page index down by two.
proof fn lemma_index_after_eviction(offset: nat, capacity: nat)
    requires
        capacity > 0,
        offset / capacity >= 2,
    ensures
        offset >= 2 * capacity,
        (offset - 2 * capacity) / (capacity as int) == offset / capacity - 2,
{
    let c = capacity as int;
    let q = offset as int / c;
    let r = offset as int % c;
    lemma_fundamental_div_mod(offset as int, c);
    vstd::arithmetic::div_mod::lemma_mod_pos_bound(offset as int, c);
    assert(c * q >= 2 * c) by (nonlinear_arith)
        requires
            q >= 2,
            c > 0,
    ;
    assert((q - 2) * c == c * q - 2 * c) by (nonlinear_arith);
    lemma_fundamental_div_mod_converse(offset - 2 * c, c, q - 2, r);
}

/// Eviction drops posts from the front only, and the window moves back by
/// exactly as many: it shows the same posts as before.
pub proof fn lemma_eviction_keeps_window(page: PageView)
    requires
        page.wf(),
    ensures
        ({
            let after = page.evicted();
            &&& after.wf()
            &&& page.posts.len() - after.posts.len() == page.evicted_count()
            &&& page.offset - after.offset == page.evicted_count()
            &&& after.posts == page.posts.skip(page.evicted_count() as int)
            &&& after.visible() == page.visible()
            &&& after.window() == page.window()
            &&& after.focused == page.focused
            &&& after.capacity == page.capacity
        }),
{
    if page.evicts() {
        lemma_index_after_eviction(page.offset, page.capacity);
    }
    assert(page.evicted().window() =~= page.window());
}

/// Eviction bounds what is held behind the window. Where the window is on
/// one of the two pages past those retained, or on an earlier one, fewer
/// than four windows' worth of posts lie before it afterwards: the posts
/// held are fewer than four times the capacity plus those from the start
/// of the window on. Where the window starts on a page boundary, the posts
/// up to the end of the window are no more than four windows' worth: the
/// posts held are at most four times the capacity plus those beyond the
/// window, however many of these have been appended. One step down from a
/// page in that state, at the same capacity, leads no further than the
/// first page past those retained.
pub proof fn lemma_eviction_bounds_resident(page: PageView)
    requires
        page.wf(),
        page.capacity > 0,
        page.page_index() <= RETAINED_PAGES + EVICTED_PAGES,
    ensures
        ({
            let after = page.evicted();
            &&& after.page_index() <= RETAINED_PAGES
            &&& after.offset < 4 * page.capacity
            &&& after.posts.len() < 4 * page.capacity + (after.posts.len() - after.offset)
            &&& page.on_page_boundary() ==> after.on_page_boundary() && after.posts.len() <= 4
                * page.capacity + after.beyond_window()
            &&& after.scroll_down().page_index() <= RETAINED_PAGES + 1
        }),
{
    let c = page.capacity as int;
    let after = page.evicted();
    if page.evicts() {
        lemma_index_after_eviction(page.offset, page.capacity);
    }
    let q = after.offset as int / c;
    lemma_fundamental_div_mod(after.offset as int, c);
    lemma_fundamental_div_mod(page.offset as int, c);
    vstd::arithmetic::div_mod::lemma_mod_pos_bound(after.offset as int, c);
    assert(c * q <= c * 3) by (nonlinear_arith)
        requires
            q <= 3,
            c > 0,
    ;
    assert((q + 1) * c == c * q + c) by (nonlinear_arith);
    lemma_fundamental_div_mod_converse(after.offset + c, c, q + 1, after.offset as int % c);
    if page.on_page_boundary() {
        let p = page.offset as int / c;
        assert((p - 2) * c == c * p - 2 * c) by (nonlinear_arith);
        assert(p * c == c * p) by (nonlinear_arith);
        if page.evicts() {
            lemma_fundamental_div_mod_converse(after.offset as int, c, p - 2, 0);
        }
    }
}

/// A window that starts on a page boundary stays on one, whether the page
/// is scrolled or its oldest posts are evicted.
pub proof fn lemma_window_stays_on_page_boundary(page: PageView)
    requires
        page.wf(),
        page.on_page_boundary(),
    ensures
        page.scroll_down().on_page_boundary(),
        page.scroll_up().on_page_boundary(),
        page.evicted().on_page_boundary(),
{
    let c = page.capacity as int;
    let q = page.offset as int / c;
    lemma_fundamental_div_mod(page.offset as int, c);
    assert(q * c == c * q) by (nonlinear_arith);
    assert((q + 1) * c == c * q + c) by (nonlinear_arith);
    assert((q - 1) * c == c * q - c) by (nonlinear_arith);
    assert((q - 2) * c == c * q - 2 * c) by (nonlinear_arith);
    lemma_fundamental_div_mod_converse(page.offset + c, c, q + 1, 0);
    if page.offset >= c {
        lemma_fundamental_div_mod_converse(page.offset - c, c, q - 1, 0);
    } else {
        lemma_fundamental_div_mod_converse(0, c, 0, 0);
    }
    if page.evicts() {
        lemma_index_after_eviction(page.offset, page.capacity);
        lemma_fundamental_div_mod_converse(page.offset - 2 * c, c, q - 2, 0);
    }
}

/// Rendering again into the same height, with no post added in between,
/// changes nothing: capacity, offset, focus and posts are what the first
/// rendering left, and so is the number of posts shown; and whatever areas
/// the layout gives, the same areas are placed in the same way. Left out
/// are pages whose window is so far into the feed that one eviction does
/// not bring it back among the retained pages.
pub proof fn lemma_render_twice(page: PageView, height: u16)
    requires
        page.wf(),
        slots_for(height) > 0 ==> page.offset / slots_for(height) <= RETAINED_PAGES
            + EVICTED_PAGES,
    ensures
        page.rendered(height).wf(),
        page.rendered(height).rendered(height) == page.rendered(height),
        page.rendered(height).rendered(height).visible() == page.rendered(height).visible(),
        forall|rects: Seq<Rect>, padded: bool|
            #[trigger] page.rendered(height).rendered(height).placed(rects, padded)
                == page.rendered(height).placed(rects, padded),
{
    let resized = page.resized(slots_for(height));
    let once = page.rendered(height);
    lemma_eviction_keeps_window(resized);
    if slots_for(height) > 0 {
        lemma_eviction_bounds_resident(resized);
    }
    assert(once.resized(slots_for(height)) == once);
    assert(!once.evicts());
    assert(once.posts.skip(0) =~= once.posts);
}

} // verus!
