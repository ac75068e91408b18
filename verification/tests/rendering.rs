use ln_main::ui::components::Component;
use ln_main::ui::layout::{stack, Rect};
use ln_main::ui::listing::lemmynator_post::{
    LemmynatorPost, BARE_POST_ROWS, POST_ROWS, TALL_POST_ROWS,
};
use ln_main::ui::listing::page::{space_for_padding_available, Page};
use ln_main::ui::listing::window::Placement;
use lemmy_api_common::lemmy_db_views::structs::PaginationCursor;

fn text(n: usize) -> LemmynatorPost {
    LemmynatorPost { body: format!("post {}", n), image_only: false, image_wide: None }
}

fn bare() -> LemmynatorPost {
    LemmynatorPost { body: String::new(), image_only: false, image_wide: None }
}

fn picture(wide: bool) -> LemmynatorPost {
    LemmynatorPost { body: String::new(), image_only: true, image_wide: Some(wide) }
}

fn texts(count: usize) -> Vec<LemmynatorPost> {
    (0..count).map(text).collect()
}

fn area(height: u16) -> Rect {
    Rect { x: 0, y: 0, width: 80, height }
}

fn rect(y: u16, height: u16) -> Rect {
    Rect { x: 0, y, width: 80, height }
}

fn page_of(posts: Vec<LemmynatorPost>) -> Page {
    let mut page = Page::new();
    page.append(posts, None);
    page
}

fn rects(scene: &[Placement]) -> Vec<Rect> {
    scene.iter().map(|placement| placement.rect).collect()
}

#[test]
fn rows_of_a_post() {
    assert_eq!(bare().vertical_length(), 5);
    assert_eq!(text(0).vertical_length(), 7);
    assert_eq!(picture(true).vertical_length(), 7);
    assert_eq!(picture(false).vertical_length(), 8);
    assert_eq!((BARE_POST_ROWS, POST_ROWS, TALL_POST_ROWS), (5, 7, 8));
}

#[test]
fn rows_of_a_post_go_by_text_then_picture() {
    // no text, but a picture and nothing else: not bare
    let post = LemmynatorPost { body: String::new(), image_only: true, image_wide: None };
    assert_eq!(post.vertical_length(), 7);
    // no text and no claim to be a picture: bare, whatever is known of a picture
    let post = LemmynatorPost { body: String::new(), image_only: false, image_wide: Some(false) };
    assert_eq!(post.vertical_length(), 5);
    // text and a tall picture
    let post = LemmynatorPost { body: "text".to_string(), image_only: false, image_wide: Some(false) };
    assert_eq!(post.vertical_length(), 8);
    // text and a wide picture
    let post = LemmynatorPost { body: "text".to_string(), image_only: false, image_wide: Some(true) };
    assert_eq!(post.vertical_length(), 7);
    assert!(picture(true).is_image_only());
    assert_eq!(picture(false).image_is_wide(), Some(false));
}

#[test]
fn capacity_is_an_eighth_of_the_height() {
    let mut page = page_of(texts(3));
    for (height, capacity) in [(0, 0), (7, 0), (8, 1), (15, 1), (16, 2), (24, 3), (31, 3), (100, 12)] {
        page.render(area(height));
        assert_eq!(page.currently_displaying(), capacity, "height {}", height);
    }
}

#[test]
fn capacity_is_kept_in_one_byte() {
    let mut page = page_of(texts(3));
    page.render(area(2047));
    assert_eq!(page.currently_displaying(), 255);
    page.render(area(2048));
    assert_eq!(page.currently_displaying(), 0);
    page.render(area(2056));
    assert_eq!(page.currently_displaying(), 1);
    page.render(area(u16::MAX));
    assert_eq!(page.currently_displaying(), 255);
}

#[test]
fn posts_are_stacked_from_the_top() {
    let mut page = page_of(vec![text(0), bare(), picture(false), picture(true)]);
    let scene = page.render(area(32));
    assert_eq!(page.currently_displaying(), 4);
    assert_eq!(
        page.rects_for_posts(area(32)),
        vec![rect(0, 7), rect(7, 5), rect(12, 8), rect(20, 7)]
    );
    // 7 + 5 + 8 + 7 rows are taken, 5 are left: more than one per post
    assert_eq!(rects(&scene), vec![rect(1, 7), rect(9, 5), rect(15, 8), rect(24, 7)]);
    assert_eq!(scene.iter().map(|p| p.index).collect::<Vec<_>>(), vec![0, 1, 2, 3]);
}

#[test]
fn rects_for_posts_gives_each_post_its_rows() {
    let mut page = page_of(vec![picture(false), bare(), text(0)]);
    page.render(area(24));
    let pool = Rect { x: 3, y: 10, width: 40, height: 30 };
    let rects = page.rects_for_posts(pool);
    assert_eq!(
        rects,
        vec![
            Rect { x: 3, y: 10, width: 40, height: 8 },
            Rect { x: 3, y: 18, width: 40, height: 5 },
            Rect { x: 3, y: 23, width: 40, height: 7 },
        ]
    );
}

#[test]
fn vertical_lengths_are_those_of_the_visible_posts() {
    let mut page = page_of(vec![picture(false), bare(), text(0), picture(true), bare()]);
    assert_eq!(page.vertical_lengths(), Vec::<u16>::new());
    page.render(area(24));
    assert_eq!(page.vertical_lengths(), vec![8, 5, 7]);
    for _ in 0..3 {
        page.scroll_down();
    }
    assert_eq!(page.vertical_lengths(), vec![7, 5]);
}

#[test]
fn stack_cuts_the_lengths_off_the_top_in_turn() {
    let pool = Rect { x: 1, y: 2, width: 30, height: 20 };
    assert_eq!(
        stack(pool, &vec![5, 8]),
        vec![Rect { x: 1, y: 2, width: 30, height: 5 }, Rect { x: 1, y: 7, width: 30, height: 8 }]
    );
    assert_eq!(stack(pool, &vec![]), vec![]);
    // what does not fit is cut short
    assert_eq!(
        stack(pool, &vec![15, 8, 8]),
        vec![
            Rect { x: 1, y: 2, width: 30, height: 15 },
            Rect { x: 1, y: 17, width: 30, height: 5 },
            Rect { x: 1, y: 22, width: 30, height: 0 },
        ]
    );
}

#[test]
fn areas_are_stacked_bands_of_the_pool() {
    let posts = vec![text(0), bare(), picture(false), picture(true), text(1), bare()];
    for height in [0u16, 1, 5, 8, 12, 20, 27, 40, 48, 60, 300] {
        for y in [0u16, 3, 1000, 65000, u16::MAX] {
            let mut page = page_of(posts.clone());
            page.render(area(48));
            let pool = Rect { x: 2, y, width: 50, height };
            let rects = page.rects_for_posts(pool);
            assert_eq!(rects.len(), 6);
            let bottom = (y as u32 + height as u32).min(u16::MAX as u32);
            let mut floor = y as u32;
            for rect in &rects {
                assert_eq!((rect.x, rect.width), (2, 50));
                assert!(rect.y as u32 >= floor, "{:?} in {:?}", rects, pool);
                floor = rect.y as u32 + rect.height as u32;
                assert!(floor <= bottom, "{:?} in {:?}", rects, pool);
            }
        }
    }
}

#[test]
fn padding_moves_each_post_one_row_further_down() {
    let mut page = page_of(texts(3));
    // 3 posts of 7 rows in 25 rows: 4 rows are left, more than one per post
    let scene = page.render(area(25));
    assert_eq!(page.currently_displaying(), 3);
    assert_eq!(rects(&scene), vec![rect(1, 7), rect(9, 7), rect(17, 7)]);
}

#[test]
fn no_padding_without_more_free_rows_than_posts() {
    let mut page = page_of(texts(3));
    // 3 posts of 7 rows in 24 rows: 3 rows are left, one per post and not more
    let scene = page.render(area(24));
    assert_eq!(rects(&scene), vec![rect(0, 7), rect(7, 7), rect(14, 7)]);
}

#[test]
fn space_for_padding_counts_rows_and_areas() {
    let two = vec![rect(0, 7), rect(7, 5)];
    assert!(space_for_padding_available(&two, 15));
    assert!(!space_for_padding_available(&two, 14));
    assert!(!space_for_padding_available(&two, 12));
    assert!(!space_for_padding_available(&two, 11));
    assert!(!space_for_padding_available(&two, 0));
    assert!(space_for_padding_available(&vec![], 1));
    assert!(!space_for_padding_available(&vec![], 0));
    let huge = vec![rect(0, u16::MAX); 70000];
    assert!(!space_for_padding_available(&huge, u16::MAX));
    let flat = vec![rect(0, 0); 70000];
    assert!(!space_for_padding_available(&flat, u16::MAX));
    assert!(space_for_padding_available(&vec![rect(0, 0); 65534], u16::MAX));
    assert!(!space_for_padding_available(&vec![rect(0, 0); 65535], u16::MAX));
}

#[test]
fn render_posts_in_layout_pairs_posts_with_areas() {
    let mut page = page_of(texts(10));
    page.render(area(24));
    page.scroll_down();
    let areas = vec![rect(0, 7), rect(7, 7), rect(14, 7)];

    let plain = page.render_posts_in_layout(&areas, false);
    assert_eq!(
        plain,
        vec![
            Placement { index: 0, rect: rect(0, 7), focused: false },
            Placement { index: 1, rect: rect(7, 7), focused: true },
            Placement { index: 2, rect: rect(14, 7), focused: false },
        ]
    );

    let padded = page.render_posts_in_layout(&areas, true);
    assert_eq!(
        padded,
        vec![
            Placement { index: 0, rect: rect(1, 7), focused: false },
            Placement { index: 1, rect: rect(9, 7), focused: true },
            Placement { index: 2, rect: rect(17, 7), focused: false },
        ]
    );

    // fewer areas than posts: no post without an area
    let short = page.render_posts_in_layout(&areas[..2].to_vec(), false);
    assert_eq!(short.len(), 2);
    // more areas than posts: no area without a post
    let mut long = areas.clone();
    long.push(rect(21, 7));
    assert_eq!(page.render_posts_in_layout(&long, false).len(), 3);
}

#[test]
fn padding_stops_at_the_last_row_of_the_screen() {
    let mut page = page_of(texts(3));
    page.render(area(24));
    let areas = vec![rect(u16::MAX - 2, 1), rect(u16::MAX - 1, 1), rect(u16::MAX, 0)];
    let padded = page.render_posts_in_layout(&areas, true);
    assert_eq!(rects(&padded), vec![rect(u16::MAX - 1, 1), rect(u16::MAX, 1), rect(u16::MAX, 0)]);
    assert_eq!(rect(10, 4).lower(5), rect(15, 4));
    assert_eq!(rect(u16::MAX, 4).lower(1), rect(u16::MAX, 4));
    assert_eq!(rect(0, 4).lower(u16::MAX), rect(u16::MAX, 4));
}

#[test]
fn exactly_the_focused_post_is_marked() {
    let mut page = page_of(texts(10));
    page.render(area(24));
    for step in 0..9usize {
        let scene = page.render(area(24));
        let marked: Vec<usize> =
            scene.iter().enumerate().filter(|(_, p)| p.focused).map(|(row, _)| row).collect();
        assert_eq!(marked, vec![step % 3]);
        assert_eq!(scene[step % 3].index, page.posts_offset() + step % 3);
        page.scroll_down();
    }
}

#[test]
fn rendering_leaves_the_posts_as_they_are() {
    let posts = vec![text(0), bare(), picture(false)];
    let mut page = page_of(posts.clone());
    page.render(area(24));
    page.render(area(24));
    assert_eq!(page.posts(), &posts);
}

#[test]
fn a_short_tail_is_shown_as_far_as_it_goes() {
    let mut page = page_of(texts(4));
    page.render(area(24));
    for _ in 0..3 {
        page.scroll_down();
    }
    assert_eq!(page.posts_offset(), 3);
    let scene = page.render(area(24));
    assert_eq!(scene, vec![Placement { index: 3, rect: rect(1, 7), focused: true }]);

    // the focus may be on a row that has no post: then no post is marked
    page.scroll_down();
    let scene = page.render(area(24));
    assert_eq!(scene, vec![Placement { index: 3, rect: rect(1, 7), focused: false }]);
}

#[test]
fn a_window_right_after_the_feed_shows_nothing() {
    let mut page = page_of(texts(3));
    page.render(area(24));
    for _ in 0..3 {
        page.scroll_down();
    }
    assert_eq!(page.posts_offset(), 3);
    assert!(page.render(area(24)).is_empty());
    assert!(page.rects_for_posts(area(24)).is_empty());
}

#[test]
fn an_empty_page_shows_nothing() {
    let mut page = Page::new();
    assert!(page.render(area(24)).is_empty());
    assert_eq!(page.currently_displaying(), 3);
    assert_eq!(page.render_bottom_bar(), Some("1 / ".to_string()));
}

#[test]
fn no_rows_no_layout_and_no_bottom_bar() {
    let mut page = page_of(texts(10));
    page.render(area(24));
    for _ in 0..4 {
        page.scroll_down();
    }
    let scene = page.render(area(7));
    assert!(scene.is_empty());
    assert_eq!(page.currently_displaying(), 0);
    assert_eq!(page.render_bottom_bar(), None);
    assert_eq!(page.posts().len(), 10);
    assert_eq!(page.posts_offset(), 3);
    assert_eq!(page.currently_focused(), 0);
    assert!(page.rects_for_posts(area(7)).is_empty());
    assert_eq!(Page::new().render_bottom_bar(), None);
}

#[test]
fn bottom_bar_shows_the_page_number() {
    let mut page = page_of(texts(10));
    page.render(area(24));
    assert_eq!(page.render_bottom_bar(), Some("1 / ".to_string()));
    for _ in 0..3 {
        page.scroll_down();
    }
    assert_eq!(page.render_bottom_bar(), Some("2 / ".to_string()));
    for _ in 0..6 {
        page.scroll_down();
    }
    assert_eq!(page.posts_offset(), 9);
    assert_eq!(page.render_bottom_bar(), Some("4 / ".to_string()));
}

#[test]
fn bottom_bar_writes_numbers_of_several_digits() {
    let mut page = page_of(texts(1500));
    page.render(area(8));
    assert_eq!(page.currently_displaying(), 1);
    for _ in 0..9 {
        page.scroll_down();
    }
    assert_eq!(page.render_bottom_bar(), Some("10 / ".to_string()));
    for _ in 0..99 {
        page.scroll_down();
    }
    assert_eq!(page.render_bottom_bar(), Some("109 / ".to_string()));
    for _ in 0..1200 {
        page.scroll_down();
    }
    assert_eq!(page.posts_offset(), 1308);
    assert_eq!(page.render_bottom_bar(), Some("1309 / ".to_string()));
}

#[test]
fn the_focus_follows_a_shrinking_window() {
    let mut page = page_of(texts(10));
    page.render(area(40));
    for _ in 0..4 {
        page.scroll_down();
    }
    assert_eq!(page.currently_focused(), 4);
    let scene = page.render(area(24));
    assert_eq!(page.currently_displaying(), 3);
    assert_eq!(page.currently_focused(), 2);
    assert!(scene[2].focused);
    // a focus that the window still has stays
    page.render(area(40));
    assert_eq!(page.currently_focused(), 2);
}

#[test]
fn eviction_drops_two_pages_and_keeps_the_window() {
    let posts = texts(30);
    let mut page = page_of(posts.clone());
    page.render(area(24));
    // pages 0 to 3 are retained
    for _ in 0..9 {
        page.scroll_down();
    }
    assert_eq!(page.posts_offset(), 9);
    page.render(area(24));
    assert_eq!((page.posts().len(), page.posts_offset()), (30, 9));

    // on page 4 the two oldest pages go
    for _ in 0..4 {
        page.scroll_down();
    }
    assert_eq!((page.posts_offset(), page.currently_focused()), (12, 1));
    let scene = page.render(area(24));
    assert_eq!((page.posts().len(), page.posts_offset()), (24, 6));
    assert_eq!(page.currently_focused(), 1);
    assert_eq!(page.posts()[..], posts[6..]);
    let shown: Vec<&LemmynatorPost> = scene.iter().map(|p| &page.posts()[p.index]).collect();
    assert_eq!(shown, vec![&posts[12], &posts[13], &posts[14]]);
    assert_eq!(page.render_bottom_bar(), Some("3 / ".to_string()));
}

#[test]
fn eviction_bounds_the_posts_behind_the_window() {
    let mut page = page_of(texts(40));
    page.render(area(24));
    let capacity = 3;
    for step in 0..200 {
        if step % 7 == 0 {
            page.append(texts(5), None);
        }
        page.scroll_down();
        page.render(area(24));
        let ahead = page.posts().len() - page.posts_offset();
        assert!(page.posts_offset() < 4 * capacity);
        assert!(page.posts().len() < 4 * capacity + ahead);
    }
}

#[test]
fn eviction_takes_one_step_per_render() {
    // a window that shrinks from 5 rows to 1 finds itself on page 20
    let mut page = page_of(texts(30));
    page.render(area(40));
    for _ in 0..20 {
        page.scroll_down();
    }
    assert_eq!(page.posts_offset(), 20);
    page.render(area(8));
    assert_eq!((page.posts().len(), page.posts_offset()), (28, 18));
    page.render(area(8));
    assert_eq!((page.posts().len(), page.posts_offset()), (26, 16));
}

#[test]
fn rendering_twice_gives_the_same() {
    let mut page = page_of(vec![text(0), bare(), picture(false), picture(true), text(1), text(2), text(3)]);
    page.render(area(24));
    for _ in 0..4 {
        page.scroll_down();
    }
    for height in [24u16, 25, 40, 7, 26] {
        let first = page.render(area(height));
        let after_first = (
            page.posts().clone(),
            page.posts_offset(),
            page.currently_focused(),
            page.currently_displaying(),
        );
        let second = page.render(area(height));
        let after_second = (
            page.posts().clone(),
            page.posts_offset(),
            page.currently_focused(),
            page.currently_displaying(),
        );
        assert_eq!(after_first, after_second);
        assert_eq!(first, second);
    }
}

#[test]
fn rendering_twice_after_an_eviction_gives_the_same() {
    let mut page = page_of(texts(30));
    page.render(area(24));
    for _ in 0..13 {
        page.scroll_down();
    }
    let first = page.render(area(24));
    assert_eq!((page.posts().len(), page.posts_offset()), (24, 6));
    let second = page.render(area(24));
    assert_eq!((page.posts().len(), page.posts_offset()), (24, 6));
    assert_eq!(first, second);
}

#[test]
fn append_adds_at_the_tail_and_keeps_the_cursor_as_it_came() {
    let mut page = Page::new();
    page.append(texts(2), Some(PaginationCursor("Pabc".to_string())));
    assert_eq!(page.posts(), &texts(2));
    assert_eq!(page.next_page(), &Some(PaginationCursor("Pabc".to_string())));

    page.render(area(24));
    page.scroll_down();
    page.append(vec![bare()], Some(PaginationCursor("Pdef".to_string())));
    assert_eq!(page.posts(), &vec![text(0), text(1), bare()]);
    assert_eq!(page.next_page(), &Some(PaginationCursor("Pdef".to_string())));
    assert_eq!((page.posts_offset(), page.currently_focused()), (0, 1));
    assert_eq!(page.currently_displaying(), 3);

    page.append(vec![], None);
    assert_eq!(page.posts().len(), 3);
    assert_eq!(page.next_page(), &None);
}

#[test]
fn scrolling_and_rendering_keep_the_cursor() {
    let mut page = Page::new();
    page.append(texts(30), Some(PaginationCursor("Pabc".to_string())));
    page.render(area(24));
    for _ in 0..14 {
        page.scroll_down();
    }
    page.render(area(24));
    page.scroll_up();
    assert_eq!(page.posts().len(), 24);
    assert_eq!(page.next_page(), &Some(PaginationCursor("Pabc".to_string())));
}

#[test]
fn stack_stays_inside_the_pool_whatever_is_asked_for() {
    let lengths: Vec<Vec<u16>> = vec![
        vec![0],
        vec![u16::MAX],
        vec![0, 0, 0],
        vec![1, u16::MAX, 1],
        vec![u16::MAX, u16::MAX],
        vec![3, 0, 9, 1, 200, 7, 7, 7],
        vec![100, 50, 25, 12, 6, 3, 1],
    ];
    let pools = [
        Rect { x: 0, y: 0, width: 0, height: 0 },
        Rect { x: 0, y: 0, width: 1, height: 1 },
        Rect { x: 9, y: 0, width: 7, height: u16::MAX },
        Rect { x: 9, y: u16::MAX, width: 7, height: u16::MAX },
        Rect { x: u16::MAX, y: 40000, width: u16::MAX, height: 40000 },
        Rect { x: 5, y: 17, width: 80, height: 33 },
        Rect { x: 5, y: 65530, width: 80, height: 5 },
        Rect { x: 5, y: 65530, width: 80, height: 6 },
    ];
    for pool in pools {
        for lengths in &lengths {
            let rects = stack(pool, lengths);
            assert_eq!(rects.len(), lengths.len());
            let bottom = (pool.y as u32 + pool.height as u32).min(u16::MAX as u32);
            let mut floor = pool.y as u32;
            for rect in &rects {
                assert_eq!((rect.x, rect.width), (pool.x, pool.width));
                assert!(rect.y as u32 >= floor, "{:?} of {:?} in {:?}", rects, lengths, pool);
                floor = rect.y as u32 + rect.height as u32;
                assert!(floor <= bottom, "{:?} of {:?} in {:?}", rects, lengths, pool);
            }
        }
    }
}
