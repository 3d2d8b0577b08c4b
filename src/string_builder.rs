use vstd::prelude::*;

use crate::text::{repeat_char, repeated};

verus! {

/// A line of output: the depth it is indented to and its text.
pub type LineSpec = (nat, Seq<char>);

/// One line as rendered: `ch` once per level of depth, the text, a newline.
pub open spec fn render_line(line: LineSpec, ch: char) -> Seq<char> {
    repeat_char(ch, line.0) + line.1 + seq!['\n']
}

/// The lines rendered one after another, in order.
pub open spec fn render_lines(lines: Seq<LineSpec>, ch: char) -> Seq<char>
    decreases lines.len(),
{
    if lines.len() == 0 {
        Seq::empty()
    } else {
        render_lines(lines.drop_last(), ch) + render_line(lines.last(), ch)
    }
}

struct Line {
    indent: usize,
    code: String,
}

impl Line {
    spec fn spec_line(&self) -> LineSpec {
        (self.indent as nat, self.code@)
    }

    fn new(indent: usize, code: String) -> (r: Self)
        ensures
            r.spec_line() == (indent as nat, code@),
    {
        Self { indent, code }
    }

    fn to_line(&self, ch: char) -> (r: String)
        ensures
            r@ == repeat_char(ch, self.indent as nat) + self.code@,
    {
        let mut r = repeated(ch, self.indent);
        r.append(self.code.as_str());
        r
    }
}

/// Accumulates lines, each tagged with the depth that was current when it
/// was added, and renders them into one string at the end.
pub struct StringBuilder {
    buff: Vec<Line>,
    curr_index: usize,
    floor: Ghost<nat>,
}

impl StringBuilder {
    /// The lines added so far, in order, with their depths.
    pub closed spec fn lines(&self) -> Seq<LineSpec> {
        self.buff@.map_values(|l: Line| l.spec_line())
    }

    /// The depth that the next added line gets.
    pub closed spec fn depth(&self) -> nat {
        self.curr_index as nat
    }

    /// The depth the builder started at; it never goes below it.
    pub closed spec fn floor(&self) -> nat {
        self.floor@
    }

    /// An empty builder whose current depth is `indent`.
    pub fn new(indent: usize) -> (r: Self)
        ensures
            r.lines() == Seq::<LineSpec>::empty(),
            r.depth() == indent,
            r.floor() == indent,
    {
        let r = Self { buff: Vec::new(), curr_index: indent, floor: Ghost(indent as nat) };
        assert(r.lines() =~= Seq::<LineSpec>::empty());
        r
    }

    /// Adds `line` at the current depth.
    pub fn add_line(self, line: String) -> (r: Self)
        ensures
            r.lines() == self.lines().push((self.depth(), line@)),
            r.depth() == self.depth(),
            r.floor() == self.floor(),
    {
        let mut s = self;
        let l = Line::new(s.curr_index, line);
        s.buff.push(l);
        assert(s.lines() =~= self.lines().push((self.depth(), line@)));
        s
    }

    /// All lines, each prefixed by `ch` once per level of its depth and
    /// ended by a newline.
    pub fn build_string(self, ch: char) -> (r: String)
        ensures
            r@ == render_lines(self.lines(), ch),
    {
        let mut out = String::new();
        let mut i: usize = 0;
        while i < self.buff.len()
            invariant
                i <= self.buff.len(),
                out@ == render_lines(self.lines().subrange(0, i as int), ch),
            decreases self.buff.len() - i,
        {
            let s = self.buff[i].to_line(ch);
            out.append(s.as_str());
            out.append("\n");
            proof {
                reveal_strlit("\n");
                let next = self.lines().subrange(0, i + 1);
                assert(next.drop_last() =~= self.lines().subrange(0, i as int));
                assert(next.last() == self.lines()[i as int]);
            }
            i += 1;
        }
        assert(self.lines().subrange(0, self.buff.len() as int) =~= self.lines());
        out
    }

    /// One level deeper for the lines added from now on.
    pub fn increase_indent(self) -> (r: Self)
        requires
            self.depth() < usize::MAX,
        ensures
            r.lines() == self.lines(),
            r.depth() == self.depth() + 1,
            r.floor() == self.floor(),
    {
        let mut s = self;
        s.curr_index = s.curr_index + 1;
        assert(s.lines() =~= self.lines());
        s
    }

    /// One level shallower for the lines added from now on; never below
    /// the depth the builder started at.
    pub fn decrease_indent(self) -> (r: Self)
        requires
            self.depth() > self.floor(),
        ensures
            r.lines() == self.lines(),
            r.depth() == self.depth() - 1,
            r.floor() == self.floor(),
    {
        let mut s = self;
        s.curr_index = s.curr_index - 1;
        assert(s.lines() =~= self.lines());
        s
    }
}

} // verus!
