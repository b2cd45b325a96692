//! Surface model: one owned pairing of a content buffer (a sequence of text
//! lines) and the rectangular on-screen region that renders it.
//!
//! A surface is owned exclusively by the session that created it, so its
//! content changes only through the session's own handlers. The host windows
//! and buffers that mirror a surface are the host's business; this model is
//! what the session's contracts speak of.

use crate::layout::Geometry;
use vstd::prelude::*;

verus! {

/// An element-wise copy of a list of lines.
pub(crate) fn clone_lines(lines: &Vec<String>) -> (out: Vec<String>)
    ensures
        out.deep_view() == lines.deep_view(),
        out.len() == lines.len(),
{
    let mut out: Vec<String> = Vec::new();
    let mut i: usize = 0;
    while i < lines.len()
        invariant
            0 <= i <= lines.len(),
            out.len() == i,
            forall|j: int| 0 <= j < i ==> out.deep_view()[j] == lines.deep_view()[j],
        decreases lines.len() - i,
    {
        out.push(lines[i].clone());
        i = i + 1;
    }
    proof {
        assert(out.deep_view() =~= lines.deep_view());
    }
    out
}

/// Which of the stacked rectangles a surface backs.
#[derive(Clone, Copy, Debug, PartialEq, Eq, Structural)]
pub enum SurfaceRole {
    Title,
    Input,
    List,
}

/// An owned content-buffer and window-geometry pairing.
pub struct Surface {
    pub role: SurfaceRole,
    pub lines: Vec<String>,
    pub geometry: Geometry,
    /// False once the surface is destroyed; destruction is idempotent.
    pub alive: bool,
}

impl Surface {
    /// The lines as a mathematical sequence of character sequences.
    pub open spec fn content(self) -> Seq<Seq<char>> {
        self.lines.deep_view()
    }

    /// Create a surface over the given initial content, placed at `geometry`.
    pub fn create(role: SurfaceRole, lines: Vec<String>, geometry: Geometry) -> (s: Surface)
        ensures
            s.role == role,
            s.content() == lines.deep_view(),
            s.geometry == geometry,
            s.alive,
    {
        Surface { role, lines, geometry, alive: true }
    }

    /// Replace the whole content. A destroyed surface no longer has a content
    /// buffer, so the call degrades to a no-op on it.
    pub fn set_content(&mut self, lines: Vec<String>)
        ensures
            final(self).role == old(self).role,
            final(self).geometry == old(self).geometry,
            final(self).alive == old(self).alive,
            old(self).alive ==> final(self).content() == lines.deep_view(),
            !old(self).alive ==> final(self).content() == old(self).content(),
    {
        if self.alive {
            self.lines = lines;
        }
    }

    /// Replace the whole content with a single line.
    pub fn set_single_line(&mut self, line: String)
        ensures
            final(self).role == old(self).role,
            final(self).geometry == old(self).geometry,
            final(self).alive == old(self).alive,
            old(self).alive ==> final(self).content() =~= seq![line@],
            !old(self).alive ==> final(self).content() == old(self).content(),
    {
        let mut lines: Vec<String> = Vec::new();
        lines.push(line);
        self.set_content(lines);
    }

    /// The first content line, or the empty string when there is none.
    pub fn first_line(&self) -> (line: String)
        ensures
            self.content().len() > 0 ==> line@ == self.content()[0],
            self.content().len() == 0 ==> line@ == Seq::<char>::empty(),
    {
        if self.lines.len() > 0 {
            self.lines[0].clone()
        } else {
            String::new()
        }
    }

    /// Move and size the surface's on-screen region. A destroyed surface has
    /// no region left, so the call degrades to a no-op on it.
    pub fn render(&mut self, geometry: Geometry)
        ensures
            final(self).role == old(self).role,
            final(self).lines == old(self).lines,
            final(self).alive == old(self).alive,
            old(self).alive ==> final(self).geometry == geometry,
            !old(self).alive ==> final(self).geometry == old(self).geometry,
    {
        if self.alive {
            self.geometry = geometry;
        }
    }

    /// Release the surface. Destroying an already-destroyed surface is a
    /// no-op, never an error.
    pub fn destroy(&mut self)
        ensures
            final(self).role == old(self).role,
            final(self).lines == old(self).lines,
            final(self).geometry == old(self).geometry,
            !final(self).alive,
    {
        self.alive = false;
    }
}

} // verus!
