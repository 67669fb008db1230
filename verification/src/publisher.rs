//! Formatting the social update that announces a new post.
//!
//! The template is fixed: the post's title on the first line, its link on
//! the second. Submitting the text is the runtime's job; the text itself is
//! fully specified here.

use vstd::prelude::*;
use crate::feed::Post;

verus! {

/// The fixed-template update text: `New post - {title}\n{url}`.
pub open spec fn spec_update_text(title: Seq<char>, url: Seq<char>) -> Seq<char> {
    "New post - "@ + title + "\n"@ + url
}

/// Formats the update announcing `post`, following the fixed template
/// exactly: prefix, title, line break, link.
pub fn format_update(post: &Post) -> (r: String)
    ensures
        r@ == spec_update_text(post.title@, post.url@),
{
    let mut text = String::from_str("New post - ");
    text.append(post.title.as_str());
    text.append("\n");
    text.append(post.url.as_str());
    assert(text@ == spec_update_text(post.title@, post.url@));
    text
}

} // verus!
