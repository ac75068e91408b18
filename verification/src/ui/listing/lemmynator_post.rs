//! What the listing knows of one post.

use vstd::prelude::*;

verus! {

/// Rows given to a post that has neither text nor picture.
pub const BARE_POST_ROWS: u16 = 5;

/// Rows given to a post whose picture is wider than tall, and to any post
/// whose picture is not known.
pub const POST_ROWS: u16 = 7;

/// Rows given to a post whose picture is taller than wide.
pub const TALL_POST_ROWS: u16 = 8;

/// One entry of the feed, reduced to what decides its place on screen.
#[derive(Clone, Debug, PartialEq, Eq)]
pub struct LemmynatorPost {
    /// The text under the title; may be empty.
    pub body: String,
    /// Whether the post is a picture and nothing else.
    pub image_only: bool,
    /// Whether the picture is wider than tall; `None` while the post has no
    /// picture, or none that has been measured.
    pub image_wide: Option<bool>,
}

impl LemmynatorPost {
    /// The rows this post asks for.
    pub open spec fn rows(self) -> u16 {
        if self.body@.len() == 0 && !self.image_only {
            BARE_POST_ROWS
        } else {
            match self.image_wide {
                Some(false) => TALL_POST_ROWS,
                _ => POST_ROWS,
            }
        }
    }

    pub fn is_image_only(&self) -> (r: bool)
        ensures
            r == self.image_only,
    {
        self.image_only
    }

    pub fn image_is_wide(&self) -> (r: Option<bool>)
        ensures
            r == self.image_wide,
    {
        self.image_wide
    }

    /// The rows this post asks for: the fewest for a post with nothing to
    /// show, one more for a tall picture than for a wide one.
    pub fn vertical_length(&self) -> (rows: u16)
        ensures
            rows == self.rows(),
    {
        if self.body.as_str().is_empty() && !self.is_image_only() {
            BARE_POST_ROWS
        } else if let Some(image_is_wide) = self.image_is_wide() {
            if image_is_wide {
                POST_ROWS
            } else {
                TALL_POST_ROWS
            }
        } else {
            POST_ROWS
        }
    }
}

} // verus!
