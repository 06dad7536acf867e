//! The row store: the lines of the loaded text.
use vstd::prelude::*;
use vstd::std_specs::iter::IteratorSpec;
use vstd::string::group_string_axioms;
use crate::text::{push_char, views};

verus! {

/// A line without the carriage return that precedes its line feed.
pub open spec fn strip_cr(line: Seq<char>) -> Seq<char> {
    if line.len() > 0 && line.last() == '\r' {
        line.drop_last()
    } else {
        line
    }
}

/// The lines of `s` that a line feed has closed, and the text after the last
/// line feed.
pub open spec fn split_terminated(s: Seq<char>) -> (Seq<Seq<char>>, Seq<char>)
    decreases s.len(),
{
    if s.len() == 0 {
        (seq![], seq![])
    } else {
        let (done, cur) = split_terminated(s.drop_last());
        if s.last() == '\n' {
            (done.push(strip_cr(cur)), seq![])
        } else {
            (done, cur.push(s.last()))
        }
    }
}

/// The lines of `s`: split at each `\n` or `\r\n`, terminators dropped; a final
/// terminator adds no empty line.
pub open spec fn lines_of(s: Seq<char>) -> Seq<Seq<char>> {
    let (done, tail) = split_terminated(s);
    if tail.len() > 0 {
        done.push(tail)
    } else {
        done
    }
}

/// Lines written one after another, each followed by a line feed.
pub open spec fn terminated(lines: Seq<Seq<char>>) -> Seq<char>
    decreases lines.len(),
{
    if lines.len() == 0 {
        seq![]
    } else {
        terminated(lines.drop_last()) + lines.last() + seq!['\n']
    }
}

/// A line that splitting gives back unchanged: no line feed in it, and no
/// carriage return at its end.
pub open spec fn plain_line(line: Seq<char>) -> bool {
    &&& forall|j: int| 0 <= j < line.len() ==> line[j] != '\n'
    &&& (line.len() == 0 || line.last() != '\r')
}

/// Appending text without line feeds only extends the unterminated tail.
proof fn lemma_split_extend(t: Seq<char>, l: Seq<char>)
    requires
        forall|j: int| 0 <= j < l.len() ==> l[j] != '\n',
    ensures
        split_terminated(t + l) == (split_terminated(t).0, split_terminated(t).1 + l),
    decreases l.len(),
{
    if l.len() == 0 {
        assert(t + l =~= t);
        assert(split_terminated(t).1 + l =~= split_terminated(t).1);
    } else {
        lemma_split_extend(t, l.drop_last());
        assert((t + l).drop_last() =~= t + l.drop_last());
        assert((split_terminated(t).1 + l.drop_last()).push(l.last()) =~= split_terminated(t).1 + l);
    }
}

/// Splitting lines that each end in a line feed closes every one of them.
proof fn lemma_split_terminated(lines: Seq<Seq<char>>)
    requires
        forall|i: int| 0 <= i < lines.len() ==> plain_line(#[trigger] lines[i]),
    ensures
        split_terminated(terminated(lines)) == (lines, Seq::<char>::empty()),
    decreases lines.len(),
{
    if lines.len() > 0 {
        let rest = lines.drop_last();
        let l = lines.last();
        assert(plain_line(lines[lines.len() - 1]));
        assert forall|i: int| 0 <= i < rest.len() implies plain_line(#[trigger] rest[i]) by {
            assert(rest[i] == lines[i]);
        }
        lemma_split_terminated(rest);
        lemma_split_extend(terminated(rest), l);
        let t = terminated(lines);
        assert(t.drop_last() =~= terminated(rest) + l);
        assert(Seq::<char>::empty() + l =~= l);
        assert(rest.push(l) =~= lines);
    }
}

/// Loading text made of lines, each followed by a line feed, gives back
/// exactly those lines, as many as there were.
pub proof fn lemma_lines_round_trip(lines: Seq<Seq<char>>)
    requires
        forall|i: int| 0 <= i < lines.len() ==> plain_line(#[trigger] lines[i]),
    ensures
        lines_of(terminated(lines)) == lines,
        lines_of(terminated(lines)).len() == lines.len(),
{
    lemma_split_terminated(lines);
}

/// Without carriage returns, the closed lines, each with its line feed, and
/// then the tail give back the text; the tail is empty exactly when the text
/// is empty or ends in a line feed.
proof fn lemma_split_rejoin(s: Seq<char>)
    requires
        forall|j: int| 0 <= j < s.len() ==> s[j] != '\r',
    ensures
        terminated(split_terminated(s).0) + split_terminated(s).1 == s,
        forall|j: int| 0 <= j < split_terminated(s).1.len() ==> split_terminated(s).1[j] != '\r',
        (split_terminated(s).1.len() > 0) == (s.len() > 0 && s.last() != '\n'),
    decreases s.len(),
{
    if s.len() > 0 {
        let prev = s.drop_last();
        lemma_split_rejoin(prev);
        let (done, cur) = split_terminated(prev);
        if s.last() == '\n' {
            if cur.len() > 0 {
                assert(cur[cur.len() - 1] != '\r');
            }
            assert(strip_cr(cur) == cur);
            assert(done.push(cur).drop_last() =~= done);
            assert(terminated(done.push(cur)) + Seq::<char>::empty() =~= s);
        } else {
            assert(prev.push(s.last()) =~= s);
            assert(terminated(done) + cur.push(s.last()) =~= (terminated(done) + cur).push(s.last()));
            assert forall|j: int| 0 <= j < cur.push(s.last()).len() implies cur.push(s.last())[j] != '\r' by {
                if j < cur.len() {
                } else {
                    assert(s[s.len() - 1] != '\r');
                }
            }
        }
    }
}

/// Rows loaded from a text without carriage returns, each written back with a
/// line feed, give back that text, with a line feed added where its last line
/// had none.
pub proof fn lemma_text_round_trip(s: Seq<char>)
    requires
        forall|j: int| 0 <= j < s.len() ==> s[j] != '\r',
    ensures
        terminated(lines_of(s)) == if s.len() == 0 || s.last() == '\n' {
            s
        } else {
            s.push('\n')
        },
{
    lemma_split_rejoin(s);
    let (done, tail) = split_terminated(s);
    if tail.len() > 0 {
        assert(done.push(tail).drop_last() =~= done);
        assert(terminated(done.push(tail)) =~= s.push('\n'));
    } else {
        assert(terminated(done) + tail =~= terminated(done));
    }
}

/// The rows of a text, fixed once loaded.
pub struct EditorRows {
    row_contents: Vec<String>,
}

impl View for EditorRows {
    type V = Seq<Seq<char>>;

    closed spec fn view(&self) -> Seq<Seq<char>> {
        views(self.row_contents@)
    }
}

impl EditorRows {
    /// A store without rows.
    pub fn new() -> (r: EditorRows)
        ensures
            r@ == Seq::<Seq<char>>::empty(),
    {
        let r = EditorRows { row_contents: Vec::new() };
        proof {
            assert(r@ =~= Seq::<Seq<char>>::empty());
        }
        r
    }

    /// The rows of `text`, split into lines.
    pub fn from_text(text: &str) -> (r: EditorRows)
        ensures
            r@ == lines_of(text@),
    {
        broadcast use group_string_axioms;

        let mut done: Vec<String> = Vec::new();
        let mut cur = String::new();
        let mut pending_cr = false;
        let mut it = text.chars();
        let ghost mut i: int = 0;
        loop
            invariant
                0 <= i <= text@.len(),
                it.remaining() == text@.subrange(i, text@.len() as int),
                it.obeys_prophetic_iter_laws(),
                split_terminated(text@.take(i)) == (views(done@), if pending_cr {
                    cur@.push('\r')
                } else {
                    cur@
                }),
                !pending_cr ==> cur@.len() == 0 || cur@.last() != '\r',
            ensures
                split_terminated(text@) == (views(done@), if pending_cr {
                    cur@.push('\r')
                } else {
                    cur@
                }),
            decreases text@.len() - i,
        {
            let ghost prev = text@.take(i);
            match it.next() {
                None => {
                    assert(text@.take(i) =~= text@);
                    break;
                },
                Some(c) => {
                    proof {
                        assert(text@.take(i + 1).drop_last() =~= prev);
                        assert(text@.take(i + 1).last() == c);
                        i = i + 1;
                    }
                    if c == '\n' {
                        proof {
                            if pending_cr {
                                assert(cur@.push('\r').drop_last() =~= cur@);
                            }
                        }
                        let line = cur;
                        cur = String::new();
                        pending_cr = false;
                        done.push(line);
                        proof {
                            assert(views(done@) =~= split_terminated(text@.take(i)).0);
                        }
                    } else {
                        if pending_cr {
                            push_char(&mut cur, '\r');
                        }
                        if c == '\r' {
                            pending_cr = true;
                        } else {
                            pending_cr = false;
                            push_char(&mut cur, c);
                        }
                    }
                },
            }
        }
        if pending_cr {
            push_char(&mut cur, '\r');
        }
        let ghost tail = cur@;
        let ghost before = views(done@);
        assert(split_terminated(text@) == (before, tail));
        if !cur.as_str().is_empty() {
            done.push(cur);
            proof {
                assert(views(done@) =~= before.push(tail));
            }
        }
        EditorRows { row_contents: done }
    }

    /// How many rows there are.
    pub fn number_of_rows(&self) -> (r: usize)
        ensures
            r == self@.len(),
    {
        self.row_contents.len()
    }

    /// The row at index `at`.
    pub fn get_row(&self, at: usize) -> (r: &str)
        requires
            at < self@.len(),
        ensures
            r@ == self@[at as int],
    {
        self.row_contents[at].as_str()
    }
}

} // verus!
