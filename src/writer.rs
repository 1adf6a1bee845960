//! The printer's state and configuration, and the primitive steps that every
//! rendering is made of.
use vstd::prelude::*;
use crate::render::{Layout, repeat};
use crate::seqs::group_cat;

verus! {

broadcast use group_cat;

/// Why a rendering stopped.
#[derive(Debug)]
pub enum WriteError {
    /// The output could not be written; carries the cause.
    WriteFailed(String),
    /// A method, accessor or constructor property did not hold a function
    /// expression.
    MalformedTree,
}

pub type Res = Result<(), WriteError>;

/// Renders a tree to text. The text goes to a buffer that the caller takes
/// with `take_output` or reads with `output`.
pub struct Writer {
    pub(crate) current_indent: usize,
    pub(crate) in_for_init: bool,
    pub(crate) new_line: String,
    pub(crate) indent: String,
    pub(crate) quote: Option<char>,
    pub(crate) out: String,
}

/// Settings for a `Writer` other than the defaults.
pub struct Builder {
    pub(crate) new_line: String,
    pub(crate) quote: Option<char>,
    pub(crate) indent: String,
}

/// Four spaces, the default indent unit.
pub open spec fn four_spaces() -> Seq<char> {
    seq![' ', ' ', ' ', ' ']
}

pub open spec fn line_feed() -> Seq<char> {
    seq!['\n']
}

fn default_new_line() -> (r: String)
    ensures
        r@ == line_feed(),
{
    let r = String::from_str("\n");
    proof {
        reveal_strlit("\n");
    }
    r
}

fn default_indent() -> (r: String)
    ensures
        r@ == four_spaces(),
{
    let r = String::from_str("    ");
    proof {
        reveal_strlit("    ");
    }
    r
}

impl Builder {
    pub closed spec fn new_line_text(&self) -> Seq<char> {
        self.new_line@
    }

    pub closed spec fn indent_text(&self) -> Seq<char> {
        self.indent@
    }

    pub closed spec fn quote_char(&self) -> Option<char> {
        self.quote
    }

    /// The defaults: a line feed, four spaces, the quotes of the source.
    pub fn new() -> (r: Self)
        ensures
            r.new_line_text() == line_feed(),
            r.indent_text() == four_spaces(),
            r.quote_char() is None,
    {
        Builder { new_line: default_new_line(), quote: None, indent: default_indent() }
    }

    /// Sets the line break and hands the builder back: the builder ends as
    /// the returned reference leaves it, so a call used as a statement sets
    /// the builder itself.
    pub fn new_line(&mut self, new_line: &str) -> (r: &mut Self)
        ensures
            r.new_line_text() == new_line@,
            *final(self) == *final(r),
            r.indent_text() == old(self).indent_text(),
            r.quote_char() == old(self).quote_char(),
    {
        self.set_new_line(new_line);
        self
    }

    pub fn set_new_line(&mut self, new_line: &str)
        ensures
            final(self).new_line_text() == new_line@,
            final(self).indent_text() == old(self).indent_text(),
            final(self).quote_char() == old(self).quote_char(),
    {
        self.new_line = String::from_str(new_line);
    }

    /// Forces every string literal to be re-quoted with `quote`, and hands
    /// the builder back (the builder ends as the returned reference leaves it).
    pub fn quote(&mut self, quote: char) -> (r: &mut Self)
        ensures
            r.quote_char() == Some(quote),
            *final(self) == *final(r),
            r.new_line_text() == old(self).new_line_text(),
            r.indent_text() == old(self).indent_text(),
    {
        self.set_quote(quote);
        self
    }

    pub fn set_quote(&mut self, quote: char)
        ensures
            final(self).quote_char() == Some(quote),
            final(self).new_line_text() == old(self).new_line_text(),
            final(self).indent_text() == old(self).indent_text(),
    {
        self.quote = Some(quote);
    }

    /// Sets the indent unit and hands the builder back (the builder ends as
    /// the returned reference leaves it).
    pub fn indent(&mut self, indent: &str) -> (r: &mut Self)
        ensures
            r.indent_text() == indent@,
            *final(self) == *final(r),
            r.new_line_text() == old(self).new_line_text(),
            r.quote_char() == old(self).quote_char(),
    {
        self.set_indent(indent);
        self
    }

    pub fn set_indent(&mut self, indent: &str)
        ensures
            final(self).indent_text() == indent@,
            final(self).new_line_text() == old(self).new_line_text(),
            final(self).quote_char() == old(self).quote_char(),
    {
        self.indent = String::from_str(indent);
    }

    /// A writer with these settings and nothing written yet.
    pub fn build(&self) -> (r: Writer)
        ensures
            r.fresh(),
            r.layout().nl == self.new_line_text(),
            r.layout().unit == self.indent_text(),
            r.layout().quote == self.quote_char(),
    {
        Writer::create(self.new_line.clone(), self.quote, self.indent.clone())
    }
}

impl Writer {
    /// What the text of the next node depends on.
    pub closed spec fn layout(&self) -> Layout {
        Layout {
            nl: self.new_line@,
            unit: self.indent@,
            quote: self.quote,
            depth: self.current_indent as nat,
            for_init: self.in_for_init,
        }
    }

    /// Everything written so far.
    pub closed spec fn written(&self) -> Seq<char> {
        self.out@
    }

    /// At depth zero, outside any loop initializer, with nothing written.
    pub open spec fn fresh(&self) -> bool {
        &&& self.layout().depth == 0
        &&& !self.layout().for_init
        &&& self.written().len() == 0
    }

    /// `self` is `pre` with `t` written and the state as it was.
    pub open spec fn appended(&self, pre: Writer, t: Seq<char>) -> bool {
        &&& self.written() == pre.written() + t
        &&& self.layout() == pre.layout()
    }

    /// The outcome of rendering a node whose well-formedness is `ok` and whose
    /// text is `t`: success exactly for a well-formed node, and then `t`
    /// written; otherwise a malformed-tree error.
    pub open spec fn rendered(&self, pre: Writer, r: Res, ok: bool, t: Seq<char>) -> bool {
        &&& r is Ok <==> ok
        &&& r is Ok ==> self.appended(pre, t)
        &&& r is Err ==> r->Err_0 is MalformedTree
    }

    /// As `rendered`, for a loop statement that also reports whether its body
    /// is a block (`flag`).
    pub open spec fn rendered_loop(
        &self,
        pre: Writer,
        r: Result<bool, WriteError>,
        ok: bool,
        t: Seq<char>,
        flag: bool,
    ) -> bool {
        &&& r is Ok <==> ok
        &&& r is Ok ==> self.appended(pre, t) && r->Ok_0 == flag
        &&& r is Err ==> r->Err_0 is MalformedTree
    }

    /// A writer with a line feed for line breaks, four spaces of indent, and
    /// the quotes of the source.
    pub fn new() -> (r: Self)
        ensures
            r.fresh(),
            r.layout().nl == line_feed(),
            r.layout().unit == four_spaces(),
            r.layout().quote is None,
    {
        Self::create(default_new_line(), None, default_indent())
    }

    pub fn create(new_line: String, quote: Option<char>, indent: String) -> (r: Self)
        ensures
            r.fresh(),
            r.layout().nl == new_line@,
            r.layout().unit == indent@,
            r.layout().quote == quote,
    {
        Writer {
            current_indent: 0,
            in_for_init: false,
            new_line,
            indent,
            quote,
            out: String::new(),
        }
    }

    pub fn builder() -> (r: Builder)
        ensures
            r.new_line_text() == line_feed(),
            r.indent_text() == four_spaces(),
            r.quote_char() is None,
    {
        Builder::new()
    }

    /// The text written so far.
    pub fn output(&self) -> (r: &str)
        ensures
            r@ == self.written(),
    {
        self.out.as_str()
    }

    /// Hands over the text written so far and starts an empty buffer.
    pub fn take_output(&mut self) -> (r: String)
        ensures
            r@ == old(self).written(),
            final(self).written().len() == 0,
            final(self).layout() == old(self).layout(),
    {
        let mut r = String::new();
        std::mem::swap(&mut r, &mut self.out);
        r
    }

    /// Appends `s` as it is.
    pub(crate) fn write(&mut self, s: &str)
        ensures
            final(self).appended(*old(self), s@),
    {
        self.out.append(s);
    }

    /// Goes one block deeper.
    pub(crate) fn enter(&mut self)
        ensures
            final(self).written() == old(self).written(),
            final(self).layout() == old(self).layout().deeper(),
    {
        if self.current_indent < usize::MAX {
            self.current_indent = self.current_indent + 1;
        }
    }

    pub(crate) fn depth(&self) -> (r: usize)
        ensures
            r as nat == self.layout().depth,
    {
        self.current_indent
    }

    /// Returns to a depth saved earlier.
    pub(crate) fn restore_depth(&mut self, d: usize)
        ensures
            final(self).written() == old(self).written(),
            final(self).layout() == (Layout { depth: d as nat, ..old(self).layout() }),
    {
        self.current_indent = d;
    }

    pub(crate) fn for_init(&self) -> (r: bool)
        ensures
            r == self.layout().for_init,
    {
        self.in_for_init
    }

    pub(crate) fn set_for_init(&mut self, b: bool)
        ensures
            final(self).written() == old(self).written(),
            final(self).layout() == old(self).layout().with_init(b),
    {
        self.in_for_init = b;
    }

    pub(crate) fn forced_quote(&self) -> (r: Option<char>)
        ensures
            r == self.layout().quote,
    {
        self.quote
    }

    /// Writes the margin of the current depth.
    pub fn write_leading_whitespace(&mut self) -> (r: Res)
        ensures
            r is Ok,
            final(self).appended(*old(self), old(self).layout().margin()),
    {
        let n = self.current_indent;
        let mut i: usize = 0;
        while i < n
            invariant
                i <= n,
                n == self.current_indent,
                self.layout() == old(self).layout(),
                self.written() == old(self).written() + repeat(self.indent@, i as nat),
            decreases n - i,
        {
            self.out.append(self.indent.as_str());
            i = i + 1;
        }
        Ok(())
    }

    /// Writes the configured line break.
    pub fn write_new_line(&mut self) -> (r: Res)
        ensures
            r is Ok,
            final(self).appended(*old(self), old(self).layout().nl),
    {
        self.out.append(self.new_line.as_str());
        Ok(())
    }

    /// Writes `;`.
    pub fn write_empty_stmt(&mut self) -> (r: Res)
        ensures
            r is Ok,
            final(self).appended(*old(self), ";"@),
    {
        self.write(";");
        Ok(())
    }

    /// Writes `{` and goes one block deeper.
    pub fn write_open_brace(&mut self) -> (r: Res)
        ensures
            r is Ok,
            final(self).written() == old(self).written() + "{"@,
            final(self).layout() == old(self).layout().deeper(),
    {
        self.write("{");
        self.enter();
        Ok(())
    }

    /// Goes one block up (not below zero), then writes the margin and `}`.
    pub fn write_close_brace(&mut self) -> (r: Res)
        ensures
            r is Ok,
            final(self).layout() == (Layout {
                depth: if old(self).layout().depth > 0 {
                    (old(self).layout().depth - 1) as nat
                } else {
                    0
                },
                ..old(self).layout()
            }),
            final(self).written() == old(self).written() + final(self).layout().margin() + "}"@,
    {
        if self.current_indent > 0 {
            self.current_indent = self.current_indent - 1;
        }
        let _ = self.write_leading_whitespace();
        self.write("}");
        Ok(())
    }

    /// Closes a block opened at depth `d`: back to `d`, then the margin and
    /// `}`.
    pub(crate) fn close_at(&mut self, d: usize)
        ensures
            final(self).layout() == (Layout { depth: d as nat, ..old(self).layout() }),
            final(self).written() == old(self).written() + final(self).layout().margin() + "}"@,
    {
        self.current_indent = d;
        let _ = self.write_leading_whitespace();
        self.write("}");
    }
}

} // verus!
