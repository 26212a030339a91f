use vstd::prelude::*;

use crate::text::{concat, join, joined, push_str, views};

verus! {

/// One piece of what a tool of an in-process server answered. A resource and
/// a resource link are kept as the text that describes them.
#[derive(Debug)]
pub enum HostContent {
    Text(String),
    Image { mime_type: String },
    Audio { mime_type: String },
    Resource(String),
    ResourceLink(String),
}

/// How a piece of an answer reads as text: text as it is, anything else as a
/// bracketed note of what it is.
pub open spec fn content_text(c: HostContent) -> Seq<char> {
    match c {
        HostContent::Text(t) => t@,
        HostContent::Image { mime_type } => "[Image: "@ + mime_type@ + "]"@,
        HostContent::Audio { mime_type } => "[Audio: "@ + mime_type@ + "]"@,
        HostContent::Resource(d) => "[Resource: "@ + d@ + "]"@,
        HostContent::ResourceLink(d) => "[ResourceLink: "@ + d@ + "]"@,
    }
}

fn bracketed(kind: &str, what: &str) -> (r: String)
    ensures
        r@ == kind@ + what@ + "]"@,
{
    let mut r = concat(kind, what);
    push_str(&mut r, "]");
    r
}

fn render(c: &HostContent) -> (r: String)
    ensures
        r@ == content_text(*c),
{
    match c {
        HostContent::Text(t) => t.clone(),
        HostContent::Image { mime_type } => bracketed("[Image: ", mime_type.as_str()),
        HostContent::Audio { mime_type } => bracketed("[Audio: ", mime_type.as_str()),
        HostContent::Resource(d) => bracketed("[Resource: ", d.as_str()),
        HostContent::ResourceLink(d) => bracketed("[ResourceLink: ", d.as_str()),
    }
}

/// What a tool call of an in-process server gives back as one text: each
/// piece read as text, one per line.
pub fn call_text(content: &Vec<HostContent>) -> (r: String)
    ensures
        r@ == joined(content@.map_values(|c: HostContent| content_text(c)), "\n"@),
{
    let mut parts: Vec<String> = Vec::new();
    let mut i: usize = 0;
    while i < content.len()
        invariant
            i <= content@.len(),
            views(parts@) == content@.take(i as int).map_values(|c: HostContent| content_text(c)),
        decreases content@.len() - i,
    {
        let ghost prev = parts@;
        let t = render(&content[i]);
        parts.push(t);
        proof {
            assert(views(parts@) =~= views(prev).push(t@));
            assert(content@.take(i + 1).map_values(|c: HostContent| content_text(c))
                =~= content@.take(i as int).map_values(|c: HostContent| content_text(c)).push(content_text(content@[i as int])));
        }
        i = i + 1;
    }
    proof {
        assert(content@.take(content@.len() as int) =~= content@);
    }
    join(&parts, "\n")
}

} // verus!
