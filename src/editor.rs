use crate::listing::copy_chars;
use crate::paths::slice_chars;
use vstd::prelude::*;

verus! {

/// A direction of movement.
#[derive(Clone, Copy, Debug, PartialEq, Eq, Structural)]
pub enum Direction {
    Up,
    Down,
    Left,
    Right,
}

/// The lines of a text, split at each line break: `n` line breaks give `n + 1`
/// lines.
pub open spec fn split_lines(s: Seq<char>) -> Seq<Seq<char>>
    decreases s.len(),
{
    if s.len() == 0 {
        seq![Seq::empty()]
    } else {
        let ls = split_lines(s.drop_last());
        if s.last() == '\n' {
            ls.push(Seq::empty())
        } else {
            ls.update(ls.len() - 1, ls.last().push(s.last()))
        }
    }
}

/// The text made of lines joined by line breaks.
pub open spec fn join_lines(ls: Seq<Seq<char>>) -> Seq<char>
    decreases ls.len(),
{
    if ls.len() == 0 {
        Seq::empty()
    } else if ls.len() == 1 {
        ls[0]
    } else {
        join_lines(ls.drop_last()) + seq!['\n'] + ls.last()
    }
}

pub proof fn lemma_split_nonempty(s: Seq<char>)
    ensures
        split_lines(s).len() >= 1,
    decreases s.len(),
{
    if s.len() > 0 {
        lemma_split_nonempty(s.drop_last());
    }
}

/// Splitting a text into lines and joining them again gives back the text:
/// a file opened for editing and saved unchanged keeps its bytes.
pub proof fn lemma_join_split(s: Seq<char>)
    ensures
        join_lines(split_lines(s)) == s,
    decreases s.len(),
{
    if s.len() > 0 {
        let t = s.drop_last();
        let c = s.last();
        lemma_join_split(t);
        lemma_split_nonempty(t);
        let ls = split_lines(t);
        if c == '\n' {
            assert(ls.push(Seq::empty()).drop_last() =~= ls);
            assert(join_lines(ls.push(Seq::empty())) =~= s);
        } else {
            let x = ls.last().push(c);
            let u = ls.update(ls.len() - 1, x);
            assert(s =~= t.push(c));
            if ls.len() == 1 {
                assert(join_lines(ls) == ls[0]);
                assert(join_lines(u) == u[0]);
                assert(join_lines(u) =~= s);
            } else {
                assert(u.drop_last() =~= ls.drop_last());
                assert(join_lines(u) =~= s);
            }
        }
    }
}

/// An edit buffer seen as its lines and its cursor.
pub struct BufView {
    pub lines: Seq<Seq<char>>,
    pub row: nat,
    pub col: nat,
}

/// Whether a cursor stands on a line and within it (or just past its end).
pub open spec fn cursor_ok(b: BufView) -> bool {
    &&& b.lines.len() >= 1
    &&& b.row < b.lines.len()
    &&& b.col <= b.lines[b.row as int].len()
}

/// The buffer after a line break at the cursor: the line is split there and the
/// cursor goes to the start of the new line.
pub open spec fn newline_spec(b: BufView) -> BufView {
    let line = b.lines[b.row as int];
    BufView {
        lines: b.lines.update(b.row as int, line.subrange(0, b.col as int)).insert(
            b.row + 1 as int,
            line.subrange(b.col as int, line.len() as int),
        ),
        row: b.row + 1,
        col: 0,
    }
}

/// The buffer after typing `c` at the cursor.
pub open spec fn insert_spec(b: BufView, c: char) -> BufView {
    if c == '\n' {
        newline_spec(b)
    } else {
        BufView {
            lines: b.lines.update(b.row as int, b.lines[b.row as int].insert(b.col as int, c)),
            row: b.row,
            col: b.col + 1,
        }
    }
}

/// The buffer after removing what stands left of the cursor: a character, or at
/// the start of a line that is not the first, the line break before it.
pub open spec fn delete_spec(b: BufView) -> BufView {
    if b.col > 0 {
        BufView {
            lines: b.lines.update(b.row as int, b.lines[b.row as int].remove(b.col - 1)),
            row: b.row,
            col: (b.col - 1) as nat,
        }
    } else if b.row > 0 {
        let prev = b.lines[b.row - 1];
        BufView {
            lines: b.lines.update(b.row - 1, prev + b.lines[b.row as int]).remove(b.row as int),
            row: (b.row - 1) as nat,
            col: prev.len(),
        }
    } else {
        b
    }
}

pub open spec fn min_nat(a: nat, b: nat) -> nat {
    if a <= b {
        a
    } else {
        b
    }
}

/// The cursor after one step: left and right wrap to the end of the line above
/// and the start of the line below; up and down keep the column where the
/// destination line is long enough, and its end otherwise.
pub open spec fn move_spec(b: BufView, d: Direction) -> BufView {
    let n = b.lines.len();
    let len = b.lines[b.row as int].len();
    match d {
        Direction::Left => if b.col > 0 {
            BufView { col: (b.col - 1) as nat, ..b }
        } else if b.row > 0 {
            BufView { row: (b.row - 1) as nat, col: b.lines[b.row - 1].len(), ..b }
        } else {
            b
        },
        Direction::Right => if b.col < len {
            BufView { col: b.col + 1, ..b }
        } else if b.row + 1 < n {
            BufView { row: b.row + 1, col: 0, ..b }
        } else {
            b
        },
        Direction::Up => if b.row > 0 {
            BufView {
                row: (b.row - 1) as nat,
                col: min_nat(b.col, b.lines[b.row - 1].len()),
                ..b
            }
        } else {
            b
        },
        Direction::Down => if b.row + 1 < n {
            BufView { row: b.row + 1, col: min_nat(b.col, b.lines[b.row + 1 as int].len()), ..b }
        } else {
            b
        },
    }
}

/// Typing a character and then deleting before the cursor gives back the
/// buffer as it was, text and cursor.
pub proof fn lemma_insert_then_delete(b: BufView, c: char)
    requires
        cursor_ok(b),
    ensures
        delete_spec(insert_spec(b, c)) == b,
{
    let line = b.lines[b.row as int];
    let i = insert_spec(b, c);
    if c == '\n' {
        let left = line.subrange(0, b.col as int);
        let right = line.subrange(b.col as int, line.len() as int);
        assert(i.lines[b.row as int] == left);
        assert(i.lines[b.row + 1 as int] == right);
        assert(left + right =~= line);
        assert(delete_spec(i).lines =~= b.lines);
    } else {
        assert(line.insert(b.col as int, c).remove(b.col as int) =~= line);
        assert(delete_spec(i).lines =~= b.lines);
    }
}

/// The view of a vector of lines.
pub open spec fn lines_view(v: Seq<Vec<char>>) -> Seq<Seq<char>> {
    v.map_values(|l: Vec<char>| l@)
}

/// A text being edited: its lines and a cursor (row, column), both 0-based.
#[derive(Debug)]
pub struct EditBuffer {
    pub lines: Vec<Vec<char>>,
    pub row: usize,
    pub col: usize,
}

impl View for EditBuffer {
    type V = BufView;

    open spec fn view(&self) -> BufView {
        BufView { lines: lines_view(self.lines@), row: self.row as nat, col: self.col as nat }
    }
}

impl EditBuffer {
    pub open spec fn wf(&self) -> bool {
        cursor_ok(self@)
    }

    /// An empty buffer: one empty line, the cursor at its start.
    pub fn new() -> (r: EditBuffer)
        ensures
            r.wf(),
            r@.lines == seq![Seq::<char>::empty()],
            r@.row == 0,
            r@.col == 0,
    {
        let r = EditBuffer { lines: vec![Vec::new()], row: 0, col: 0 };
        assert(r@.lines =~= seq![Seq::<char>::empty()]);
        r
    }

    /// A buffer holding `text`, the cursor at its start.
    pub fn from_text(text: &Vec<char>) -> (r: EditBuffer)
        ensures
            r.wf(),
            r@.lines == split_lines(text@),
            r@.row == 0,
            r@.col == 0,
    {
        let mut lines: Vec<Vec<char>> = Vec::new();
        let mut cur: Vec<char> = Vec::new();
        let mut i: usize = 0;
        assert(text@.subrange(0, 0) =~= Seq::<char>::empty());
        assert(lines_view(lines@).push(cur@) =~= split_lines(Seq::<char>::empty()));
        while i < text.len()
            invariant
                i <= text@.len(),
                lines_view(lines@).push(cur@) == split_lines(text@.subrange(0, i as int)),
            decreases text@.len() - i,
        {
            let ghost before = text@.subrange(0, i as int);
            assert(text@.subrange(0, i + 1).drop_last() =~= before);
            let c = text[i];
            if c == '\n' {
                let ghost old_lines = lines@;
                lines.push(cur);
                cur = Vec::new();
                assert(lines_view(lines@) =~= lines_view(old_lines).push(
                    lines_view(lines@).last(),
                ));
                assert(lines_view(lines@).push(cur@) =~= split_lines(
                    text@.subrange(0, i + 1),
                ));
            } else {
                cur.push(c);
                assert(lines_view(lines@).push(cur@) =~= split_lines(
                    text@.subrange(0, i + 1),
                ));
            }
            i += 1;
        }
        assert(text@.subrange(0, text@.len() as int) =~= text@);
        lines.push(cur);
        assert(lines_view(lines@) =~= split_lines(text@));
        EditBuffer { lines, row: 0, col: 0 }
    }

    /// The text of the buffer: its lines joined by line breaks.
    pub fn to_text(&self) -> (r: Vec<char>)
        requires
            self.wf(),
        ensures
            r@ == join_lines(self@.lines),
    {
        let ghost lv = self@.lines;
        let mut r = copy_chars(&self.lines[0]);
        let mut i: usize = 1;
        assert(lv.subrange(0, 1) =~= seq![lv[0]]);
        while i < self.lines.len()
            invariant
                1 <= i <= self.lines@.len(),
                lv == self@.lines,
                r@ == join_lines(lv.subrange(0, i as int)),
            decreases self.lines@.len() - i,
        {
            assert(lv.subrange(0, i + 1).drop_last() =~= lv.subrange(0, i as int));
            r.push('\n');
            let mut next = copy_chars(&self.lines[i]);
            r.append(&mut next);
            i += 1;
            assert(r@ =~= join_lines(lv.subrange(0, i as int)));
        }
        assert(lv.subrange(0, lv.len() as int) =~= lv);
        r
    }

    /// The number of lines.
    pub fn line_count(&self) -> (r: usize)
        ensures
            r == self@.lines.len(),
    {
        self.lines.len()
    }

    /// The length of the line the cursor stands on.
    pub fn current_len(&self) -> (r: usize)
        requires
            self.wf(),
        ensures
            r == self@.lines[self@.row as int].len(),
    {
        self.lines[self.row].len()
    }

    /// Splits the current line at the cursor and moves the cursor to the start of
    /// the new line.
    pub fn insert_newline(&mut self)
        requires
            old(self).wf(),
            old(self)@.lines.len() < usize::MAX,
        ensures
            final(self).wf(),
            final(self)@ == newline_spec(old(self)@),
    {
        let ghost b = self@;
        let row = self.row;
        let n = self.lines[row].len();
        let left = slice_chars(&self.lines[row], 0, self.col);
        let right = slice_chars(&self.lines[row], self.col, n);
        self.lines.set(row, left);
        self.lines.insert(row + 1, right);
        self.row = row + 1;
        self.col = 0;
        assert(self@.lines =~= newline_spec(b).lines);
    }

    /// Types `c` at the cursor; a line break splits the line.
    pub fn insert(&mut self, c: char)
        requires
            old(self).wf(),
            old(self)@.lines.len() < usize::MAX,
            old(self)@.lines[old(self)@.row as int].len() < usize::MAX,
        ensures
            final(self).wf(),
            final(self)@ == insert_spec(old(self)@, c),
    {
        if c == '\n' {
            self.insert_newline();
            return;
        }
        let ghost b = self@;
        let row = self.row;
        let mut line = copy_chars(&self.lines[row]);
        line.insert(self.col, c);
        self.lines.set(row, line);
        self.col = self.col + 1;
        assert(self@.lines =~= insert_spec(b, c).lines);
    }

    /// Removes the character left of the cursor, or joins the current line to
    /// the one above when the cursor is at the start of a line below the first.
    pub fn delete_before_cursor(&mut self)
        requires
            old(self).wf(),
        ensures
            final(self).wf(),
            final(self)@ == delete_spec(old(self)@),
    {
        let ghost b = self@;
        let row = self.row;
        if self.col > 0 {
            let mut line = copy_chars(&self.lines[row]);
            line.remove(self.col - 1);
            self.lines.set(row, line);
            self.col = self.col - 1;
            assert(self@.lines =~= delete_spec(b).lines);
        } else if row > 0 {
            let mut joined = copy_chars(&self.lines[row - 1]);
            let prev_len = joined.len();
            let mut cur = copy_chars(&self.lines[row]);
            joined.append(&mut cur);
            self.lines.set(row - 1, joined);
            self.lines.remove(row);
            self.row = row - 1;
            self.col = prev_len;
            assert(self@.lines =~= delete_spec(b).lines);
        }
    }

    /// Moves the cursor one step.
    pub fn move_cursor(&mut self, d: Direction)
        requires
            old(self).wf(),
        ensures
            final(self).wf(),
            final(self)@ == move_spec(old(self)@, d),
    {
        let n = self.lines.len();
        let len = self.lines[self.row].len();
        match d {
            Direction::Left => {
                if self.col > 0 {
                    self.col = self.col - 1;
                } else if self.row > 0 {
                    self.row = self.row - 1;
                    self.col = self.lines[self.row].len();
                }
            },
            Direction::Right => {
                if self.col < len {
                    self.col = self.col + 1;
                } else if self.row + 1 < n {
                    self.row = self.row + 1;
                    self.col = 0;
                }
            },
            Direction::Up => {
                if self.row > 0 {
                    self.row = self.row - 1;
                    let l = self.lines[self.row].len();
                    if self.col > l {
                        self.col = l;
                    }
                }
            },
            Direction::Down => {
                if self.row + 1 < n {
                    self.row = self.row + 1;
                    let l = self.lines[self.row].len();
                    if self.col > l {
                        self.col = l;
                    }
                }
            },
        }
    }
}

} // verus!
