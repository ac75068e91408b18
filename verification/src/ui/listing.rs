//! The listing of posts: what a post tells the layout, the page that shows
//! a window of them, and the mathematics of that window.

pub mod lemmynator_post;
pub mod page;
pub mod window;
