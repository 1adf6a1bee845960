//! Rendering of a comment on demand. Where comments go is decided by the
//! caller; the printer only knows their delimiters.
use vstd::prelude::*;
use crate::seqs::group_cat;
use crate::writer::{Res, Writer};

verus! {

broadcast use group_cat;

#[derive(Debug)]
pub enum CommentKind {
    /// `// ...`
    Single,
    /// `/* ... */`
    Multi,
    /// `<!-- ... -->`, possibly followed by more text on its line.
    Html,
}

#[derive(Debug)]
pub struct Comment {
    pub kind: CommentKind,
    pub content: String,
    pub tail_content: Option<String>,
}

/// The text of a comment with the delimiters of its kind.
pub open spec fn comment_text(c: Comment) -> Seq<char> {
    match c.kind {
        CommentKind::Single => "//"@ + c.content@,
        CommentKind::Multi => "/*"@ + c.content@ + "*/"@,
        CommentKind::Html => "<!--"@ + c.content@ + "-->"@ + match c.tail_content {
            Some(t) => t@,
            None => Seq::empty(),
        },
    }
}

/// The text of a comment with the delimiters of its kind.
pub fn render_comment(comment: &Comment) -> (r: String)
    ensures
        r@ == comment_text(*comment),
{
    let mut r = String::new();
    match comment.kind {
        CommentKind::Single => {
            r.append("//");
            r.append(comment.content.as_str());
        },
        CommentKind::Multi => {
            r.append("/*");
            r.append(comment.content.as_str());
            r.append("*/");
        },
        CommentKind::Html => {
            r.append("<!--");
            r.append(comment.content.as_str());
            r.append("-->");
            if let Some(t) = &comment.tail_content {
                r.append(t.as_str());
            }
        },
    }
    r
}

impl Writer {
    /// Writes a comment with the delimiters of its kind.
    pub fn write_comment(&mut self, comment: Comment) -> (r: Res)
        ensures
            r is Ok,
            final(self).appended(*old(self), comment_text(comment)),
    {
        let text = render_comment(&comment);
        self.write(text.as_str());
        Ok(())
    }
}

} // verus!
