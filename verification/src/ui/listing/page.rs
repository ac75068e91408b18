//! The page: a window of at most `capacity` posts over a feed that grows at
//! its tail and is cut at its front, with one row of the window in focus.

use vstd::prelude::*;
use lemmy_api_common::lemmy_db_views::structs::PaginationCursor;
use crate::action::Action;
use crate::ui::components::Component;
use crate::ui::layout::{stack, stacked_in, Rect};
use crate::ui::listing::lemmynator_post::LemmynatorPost;
use crate::ui::listing::window::{
    occupied,
    room_for_padding,
    slots_for,
    PageView,
    Placement,
    EVICTED_PAGES,
    RETAINED_PAGES,
    ROWS_PER_SLOT,
};

verus! {

/// The total height grows with every area that is added.
proof fn lemma_occupied_grows(rects: Seq<Rect>, count: int)
    requires
        0 <= count <= rects.len(),
    ensures
        occupied(rects.take(count)) <= occupied(rects),
    decreases rects.len() - count,
{
    if count < rects.len() {
        assert(rects.take(count + 1).drop_last() == rects.take(count));
        lemma_occupied_grows(rects, count + 1);
    } else {
        assert(rects.take(count) == rects);
    }
}

/// Whether `rects`, laid out in `height` rows, leave more rows free than
/// there are areas, so that each can get a row of padding above it.
pub fn space_for_padding_available(rects: &Vec<Rect>, height: u16) -> (available: bool)
    ensures
        available == room_for_padding(rects@, height),
{
    let mut size_occupied: u32 = 0;
    let mut i: usize = 0;
    while i < rects.len()
        invariant
            i <= rects@.len(),
            size_occupied == occupied(rects@.take(i as int)),
            size_occupied <= height,
        decreases rects@.len() - i,
    {
        proof {
            assert(rects@.take(i + 1).drop_last() == rects@.take(i as int));
            lemma_occupied_grows(rects@, i + 1);
        }
        size_occupied = size_occupied + rects[i].height as u32;
        i += 1;
        if size_occupied > height as u32 {
            return false;
        }
    }
    proof {
        assert(rects@.take(i as int) == rects@);
    }
    (height as u32 - size_occupied) as usize > rects.len()
}

/// A scrollable, focus-tracking window over the posts fetched so far.
///
/// The page is always well-formed ([`PageView::wf`]): the window starts
/// inside the feed or right at its end, and the focus is on one of its rows.
pub struct Page {
    posts: Vec<LemmynatorPost>,
    next_page: Option<PaginationCursor>,
    posts_offset: usize,
    currently_focused: u8,
    currently_displaying: u8,
}

impl View for Page {
    type V = PageView;

    closed spec fn view(&self) -> PageView {
        PageView {
            posts: self.posts@,
            next_page: self.next_page,
            offset: self.posts_offset as nat,
            focused: self.currently_focused as nat,
            capacity: self.currently_displaying as nat,
        }
    }
}

impl Page {
    #[verifier::type_invariant]
    spec fn well_formed(self) -> bool {
        self@.wf()
    }

    /// An empty page: no posts, no cursor, no rows.
    pub fn new() -> (page: Page)
        ensures
            page@ == (PageView {
                posts: Seq::empty(),
                next_page: None,
                offset: 0,
                focused: 0,
                capacity: 0,
            }),
            page@.wf(),
    {
        Page {
            posts: Vec::new(),
            next_page: None,
            posts_offset: 0,
            currently_focused: 0,
            currently_displaying: 0,
        }
    }

    /// Moves the posts out of the page, to be changed and put back, and
    /// hands them over with the offset of the window. In between the page
    /// is empty.
    fn take_posts(&mut self) -> (taken: (Vec<LemmynatorPost>, usize))
        ensures
            taken.0@ == old(self)@.posts,
            taken.1 == old(self)@.offset,
            final(self)@ == (PageView { posts: Seq::empty(), offset: 0, ..old(self)@ }),
    {
        proof {
            use_type_invariant(&*self);
        }
        let offset: usize = self.posts_offset;
        self.posts_offset = 0;
        let mut held: Vec<LemmynatorPost> = Vec::new();
        core::mem::swap(&mut self.posts, &mut held);
        (held, offset)
    }

    /// Takes a batch from the feed: the posts go to the tail, and the
    /// cursor that came with them replaces the one held, as it is.
    pub fn append(&mut self, posts: Vec<LemmynatorPost>, next_page: Option<PaginationCursor>)
        ensures
            final(self)@ == (PageView {
                posts: old(self)@.posts + posts@,
                next_page,
                ..old(self)@
            }),
            final(self)@.wf(),
    {
        proof {
            use_type_invariant(&*self);
        }
        let (mut held, offset) = self.take_posts();
        let mut posts = posts;
        held.append(&mut posts);
        self.posts = held;
        self.posts_offset = offset;
        self.next_page = next_page;
    }

    /// Moves the focus one row up, or the window one page back.
    pub fn scroll_up(&mut self)
        ensures
            final(self)@ == old(self)@.scroll_up(),
            final(self)@.wf(),
    {
        proof {
            use_type_invariant(&*self);
        }
        if self.currently_focused == 0 && self.posts_offset != 0 {
            let page: usize = self.currently_displaying as usize;
            if self.posts_offset >= page {
                self.posts_offset -= page;
            } else {
                self.posts_offset = 0;
            }
            if self.currently_displaying != 0 {
                self.currently_focused = self.currently_displaying - 1;
            }
        } else if self.currently_focused != 0 {
            self.currently_focused -= 1;
        }
    }

    /// Moves the focus one row down, or the window one page on. At the end
    /// of the feed nothing moves.
    pub fn scroll_down(&mut self)
        ensures
            final(self)@ == old(self)@.scroll_down(),
            final(self)@.wf(),
    {
        proof {
            use_type_invariant(&*self);
        }
        if self.currently_focused + 1 < self.currently_displaying {
            self.currently_focused += 1;
        } else if self.posts.len() - self.posts_offset >= self.currently_displaying as usize {
            self.posts_offset += self.currently_displaying as usize;
            self.currently_focused = 0;
        }
    }

    /// Whether scrolling down has nowhere to go: the focus is on the last
    /// row and the posts held do not reach the start of a further window.
    pub fn at_end(&self) -> (stalled: bool)
        ensures
            stalled == self@.at_end(),
    {
        proof {
            use_type_invariant(self);
        }
        self.currently_focused + 1 >= self.currently_displaying && self.posts.len()
            - self.posts_offset < self.currently_displaying as usize
    }

    /// Takes the capacity of the window from the height of `rect`.
    fn update_count_of_currently_displaying(&mut self, rect: Rect)
        ensures
            final(self)@ == old(self)@.resized(slots_for(rect.height)),
    {
        proof {
            use_type_invariant(&*self);
        }
        let slots: u8 = ((rect.height / ROWS_PER_SLOT) % 256) as u8;
        if slots == 0 {
            self.currently_focused = 0;
        } else if self.currently_focused >= slots {
            self.currently_focused = slots - 1;
        }
        self.currently_displaying = slots;
    }

    /// Drops the oldest posts once the window is far enough into the feed.
    fn evict(&mut self)
        ensures
            final(self)@ == old(self)@.evicted(),
    {
        proof {
            use_type_invariant(&*self);
        }
        let page: usize = self.currently_displaying as usize;
        if page != 0 && self.posts_offset / page > RETAINED_PAGES {
            let offset: usize = self.posts_offset;
            let dropped: usize = EVICTED_PAGES * page;
            assert(offset >= 4 * page) by (nonlinear_arith)
                requires
                    page > 0,
                    offset / page > 3,
            ;
            let (mut held, _) = self.take_posts();
            let kept = held.split_off(dropped);
            self.posts = kept;
            self.posts_offset = offset - dropped;
        } else {
            assert(self.posts@.skip(0) == self.posts@);
        }
    }

    /// The rows that each visible post asks for, from the first row of the
    /// window down.
    pub fn vertical_lengths(&self) -> (lengths: Vec<u16>)
        ensures
            lengths@ == self@.rows_asked(),
    {
        proof {
            use_type_invariant(self);
        }
        let rest: usize = self.posts.len() - self.posts_offset;
        let count: usize = if rest >= self.currently_displaying as usize {
            self.currently_displaying as usize
        } else {
            rest
        };
        let mut lengths: Vec<u16> = Vec::new();
        let mut i: usize = 0;
        while i < count
            invariant
                i <= count,
                count == self@.visible(),
                self.posts_offset + count <= self.posts.len(),
                lengths@.len() == i,
                forall|j: int| 0 <= j < i ==> lengths@[j] == self@.rows_asked()[j],
            decreases count - i,
        {
            lengths.push(self.posts[self.posts_offset + i].vertical_length());
            i += 1;
        }
        lengths
    }

    /// Stacks one area per visible post from the top of `rect_pool`
    /// downwards, asking for each post in turn for the rows of
    /// [`Page::vertical_lengths`].
    ///
    /// How many rows each post gets is the layout solver's answer. Whatever
    /// it answers, there is one area per visible post, each a band of the
    /// pool, and each ends where the next begins or above it.
    pub fn rects_for_posts(&self, rect_pool: Rect) -> (rects: Vec<Rect>)
        ensures
            rects@.len() == self@.visible(),
            stacked_in(rects@, rect_pool),
    {
        let lengths = self.vertical_lengths();
        stack(rect_pool, &lengths)
    }

    /// Says where each visible post is drawn, given the areas made for
    /// them: post by post and area by area, as far as both reach. Where
    /// there is space for padding, the area in row `i` is moved down by
    /// `i + 1` rows. The post in the focused row, and no other, is marked
    /// as in focus; the mark lives in the placement, not in the post.
    pub fn render_posts_in_layout(
        &self,
        rects: &Vec<Rect>,
        space_for_padding_available: bool,
    ) -> (placements: Vec<Placement>)
        ensures
            placements@ == self@.placed(rects@, space_for_padding_available),
    {
        proof {
            use_type_invariant(self);
        }
        let rest: usize = self.posts.len() - self.posts_offset;
        let visible: usize = if rest >= self.currently_displaying as usize {
            self.currently_displaying as usize
        } else {
            rest
        };
        let count: usize = if visible <= rects.len() {
            visible
        } else {
            rects.len()
        };
        let mut placements: Vec<Placement> = Vec::new();
        let mut index: usize = 0;
        while index < count
            invariant
                index <= count,
                count <= rects@.len(),
                count <= self.currently_displaying,
                self.posts_offset + count <= self.posts.len(),
                placements@.len() == index,
                forall|i: int|
                    0 <= i < index ==> placements@[i] == self@.placed(
                        rects@,
                        space_for_padding_available,
                    )[i],
                self@.placed(rects@, space_for_padding_available).len() == count,
            decreases count - index,
        {
            let rect = if space_for_padding_available {
                rects[index].lower((index + 1) as u16)
            } else {
                rects[index]
            };
            placements.push(
                Placement {
                    index: self.posts_offset + index,
                    rect,
                    focused: index == self.currently_focused as usize,
                },
            );
            index += 1;
        }
        placements
    }

    /// The text of the bottom bar: the number of the current page, counted
    /// from 1, and a separator. A window without rows has no bottom bar.
    pub fn render_bottom_bar(&self) -> (text: Option<String>)
        ensures
            self@.capacity == 0 <==> text is None,
            text matches Some(line) ==> line@ == decimal(self@.page_number()) + " / "@,
    {
        if self.currently_displaying != 0 {
            let number: u128 = (self.posts_offset / self.currently_displaying as usize) as u128 + 1;
            let mut line = String::new();
            push_decimal(&mut line, number);
            line.append(" / ");
            Some(line)
        } else {
            None
        }
    }

    /// The posts that are held, oldest first.
    pub fn posts(&self) -> (posts: &Vec<LemmynatorPost>)
        ensures
            posts@ == self@.posts,
    {
        &self.posts
    }

    /// The cursor for the next batch.
    pub fn next_page(&self) -> (cursor: &Option<PaginationCursor>)
        ensures
            *cursor == self@.next_page,
    {
        &self.next_page
    }

    /// Index of the first post of the window.
    pub fn posts_offset(&self) -> (offset: usize)
        ensures
            offset == self@.offset,
            offset <= self@.posts.len(),
    {
        proof {
            use_type_invariant(self);
        }
        self.posts_offset
    }

    /// The row of the window that has the focus.
    pub fn currently_focused(&self) -> (row: u8)
        ensures
            row == self@.focused,
            row < self@.capacity || (self@.capacity == 0 && row == 0),
    {
        proof {
            use_type_invariant(self);
        }
        self.currently_focused
    }

    /// How many posts the window shows at once.
    pub fn currently_displaying(&self) -> (capacity: u8)
        ensures
            capacity == self@.capacity,
    {
        self.currently_displaying
    }
}

/// The digit `value` as a character.
pub open spec fn digit(value: nat) -> char
    recommends
        value < 10,
{
    if value == 0 {
        '0'
    } else if value == 1 {
        '1'
    } else if value == 2 {
        '2'
    } else if value == 3 {
        '3'
    } else if value == 4 {
        '4'
    } else if value == 5 {
        '5'
    } else if value == 6 {
        '6'
    } else if value == 7 {
        '7'
    } else if value == 8 {
        '8'
    } else {
        '9'
    }
}

/// `number` written in decimal, without leading zeros.
pub open spec fn decimal(number: nat) -> Seq<char>
    decreases number,
{
    if number < 10 {
        seq![digit(number)]
    } else {
        decimal(number / 10).push(digit(number % 10))
    }
}

/// The digit `value` as text.
fn digit_text(value: u128) -> (text: &'static str)
    requires
        value < 10,
    ensures
        text@ == seq![digit(value as nat)],
{
    proof {
        reveal_strlit("0");
        reveal_strlit("1");
        reveal_strlit("2");
        reveal_strlit("3");
        reveal_strlit("4");
        reveal_strlit("5");
        reveal_strlit("6");
        reveal_strlit("7");
        reveal_strlit("8");
        reveal_strlit("9");
    }
    let text = if value == 0 {
        "0"
    } else if value == 1 {
        "1"
    } else if value == 2 {
        "2"
    } else if value == 3 {
        "3"
    } else if value == 4 {
        "4"
    } else if value == 5 {
        "5"
    } else if value == 6 {
        "6"
    } else if value == 7 {
        "7"
    } else if value == 8 {
        "8"
    } else {
        "9"
    };
    assert(text@ =~= seq![digit(value as nat)]);
    text
}

/// Writes `number` in decimal at the end of `line`.
fn push_decimal(line: &mut String, number: u128)
    ensures
        final(line)@ == old(line)@ + decimal(number as nat),
    decreases number,
{
    if number >= 10 {
        push_decimal(line, number / 10);
    }
    line.append(digit_text(number % 10));
    assert(line@ =~= old(line)@ + decimal(number as nat));
}

impl Component for Page {
    type Scene = Vec<Placement>;

    open spec fn reacts(&self, action: Action, after: &Self, reply: Option<Action>) -> bool {
        &&& after@ == self@.handled(action)
        &&& reply == PageView::reply_to(action)
    }

    open spec fn renders(&self, rect: Rect, after: &Self, scene: Vec<Placement>) -> bool {
        &&& after@ == self@.rendered(rect.height)
        &&& after@.laid_out(rect, scene@)
    }

    /// Scrolls on `Up` and `Down` and asks for a redraw; lets every other
    /// action pass and stays as it is.
    fn handle_actions(&mut self, action: Action) -> (reply: Option<Action>)
        ensures
            final(self)@ == old(self)@.handled(action),
            reply == PageView::reply_to(action),
            final(self)@.wf(),
    {
        proof {
            use_type_invariant(&*self);
        }
        match action {
            Action::Up => {
                self.scroll_up();
                Some(Action::Render)
            },
            Action::Down => {
                self.scroll_down();
                Some(Action::Render)
            },
            _ => None,
        }
    }

    /// Lays the window out in `rect`. The capacity is taken from the height
    /// of `rect`, and the oldest posts are dropped if the window is far
    /// enough into the feed. Then every visible post gets its area, stacked
    /// from the top of `rect`; if the areas leave more rows free than there
    /// are posts to show, each area is moved down to leave a row of padding
    /// above every post.
    ///
    /// The areas come from the layout solver: the scene is what
    /// [`Page::render_posts_in_layout`] makes of some stack of bands of
    /// `rect`, one per visible post ([`PageView::laid_out`]).
    fn render(&mut self, rect: Rect) -> (scene: Vec<Placement>)
        ensures
            final(self)@ == old(self)@.rendered(rect.height),
            final(self)@.laid_out(rect, scene@),
            final(self)@.wf(),
    {
        self.update_count_of_currently_displaying(rect);
        self.evict();
        proof {
            use_type_invariant(&*self);
        }
        let rects = self.rects_for_posts(rect);
        let space_for_padding_available = space_for_padding_available(&rects, rect.height);
        let scene = self.render_posts_in_layout(&rects, space_for_padding_available);
        assert(scene@ == self@.placed(rects@, room_for_padding(rects@, rect.height)));
        scene
    }
}

} // verus!
