//! Documents and their split into line chunks.
use vstd::prelude::*;

verus! {

/// Drops one trailing carriage return, as a `\r\n` line ending leaves one.
pub open spec fn strip_cr(line: Seq<char>) -> Seq<char> {
    if line.len() > 0 && line.last() == '\r' {
        line.drop_last()
    } else {
        line
    }
}

/// The lines completed so far in `s`, and the text of the line still open.
pub open spec fn split_lines(s: Seq<char>) -> (Seq<Seq<char>>, Seq<char>)
    decreases s.len(),
{
    if s.len() == 0 {
        (Seq::empty(), Seq::empty())
    } else {
        let (done, open) = split_lines(s.drop_last());
        if s.last() == '\n' {
            (done.push(strip_cr(open)), Seq::empty())
        } else {
            (done, open.push(s.last()))
        }
    }
}

/// The lines of `s`: split at each `\n`, a `\r` before it dropped, and no
/// empty last line for text that ends in a line ending.
pub open spec fn lines_of(s: Seq<char>) -> Seq<Seq<char>> {
    let (done, open) = split_lines(s);
    if open.len() == 0 {
        done
    } else {
        done.push(open)
    }
}

/// The number of `\n` characters in `s`.
pub open spec fn newline_count(s: Seq<char>) -> nat
    decreases s.len(),
{
    if s.len() == 0 {
        0
    } else {
        newline_count(s.drop_last()) + if s.last() == '\n' { 1nat } else { 0nat }
    }
}

/// The number of lines a reader counts in `s`: one per line ending, and one
/// more for text after the last line ending.
pub open spec fn line_count(s: Seq<char>) -> nat {
    newline_count(s) + if s.len() > 0 && s.last() != '\n' { 1nat } else { 0nat }
}

/// The views of a list of strings.
pub open spec fn views_of(v: Seq<String>) -> Seq<Seq<char>> {
    v.map_values(|x: String| x@)
}

proof fn lemma_split_lines_counts(s: Seq<char>)
    ensures
        split_lines(s).0.len() == newline_count(s),
        split_lines(s).1.len() == 0 <==> (s.len() == 0 || s.last() == '\n'),
    decreases s.len(),
{
    if s.len() > 0 {
        lemma_split_lines_counts(s.drop_last());
    }
}

/// Loading yields one chunk per line: as many chunks as the text has line
/// endings, plus one for text after the last of them; empty text has none.
pub proof fn lemma_chunk_count(s: Seq<char>)
    ensures
        lines_of(s).len() == line_count(s),
        s.len() == 0 ==> lines_of(s).len() == 0,
{
    lemma_split_lines_counts(s);
}

/// Relies on `String::push`: appends one character.
#[verifier::external_body]
fn push_char(s: &mut String, c: char)
    ensures
        final(s)@ == old(s)@.push(c),
{
    s.push(c)
}

/// The string of the first `end` characters of `chars`.
fn string_of(chars: &Vec<char>, end: usize) -> (r: String)
    requires
        end <= chars.len(),
    ensures
        r@ == chars@.take(end as int),
{
    let mut r = String::new();
    let mut i: usize = 0;
    while i < end
        invariant
            i <= end,
            end <= chars.len(),
            r@ == chars@.take(i as int),
        decreases end - i,
    {
        push_char(&mut r, chars[i]);
        assert(chars@.take(i + 1) == chars@.take(i as int).push(chars@[i as int]));
        i += 1;
    }
    r
}

/// The line chunks of `text`, in order.
pub fn split_into_lines(text: &str) -> (r: Vec<String>)
    ensures
        views_of(r@) == lines_of(text@),
{
    let mut done: Vec<String> = Vec::new();
    let mut open: Vec<char> = Vec::new();
    let ghost s = text@;
    for c in it: text.chars()
        invariant
            it.seq() == s,
            views_of(done@) == split_lines(s.take(it.index() as int)).0,
            open@ == split_lines(s.take(it.index() as int)).1,
    {
        let ghost k = it.index() as int;
        assert(s.take(k + 1).drop_last() == s.take(k));
        assert(s.take(k + 1).last() == c);
        if c == '\n' {
            let n = open.len();
            let end = if n > 0 && open[n - 1] == '\r' { n - 1 } else { n };
            let line = string_of(&open, end);
            assert(line@ == strip_cr(open@));
            let ghost before = done@;
            done.push(line);
            assert(views_of(done@) =~= views_of(before).push(line@));
            open = Vec::new();
        } else {
            open.push(c);
        }
    }
    assert(s.take(s.len() as int) == s);
    if open.len() > 0 {
        let n = open.len();
        let line = string_of(&open, n);
        assert(open@.take(n as int) == open@);
        let ghost before = done@;
        done.push(line);
        assert(views_of(done@) =~= views_of(before).push(line@));
    }
    done
}

/// A document: where it came from, its whole text, and its lines.
pub struct File {
    pub path: String,
    pub contents: String,
    pub rows: Vec<String>,
}

impl File {
    /// Each row is a line of the contents, in order.
    pub open spec fn wf(&self) -> bool {
        views_of(self.rows@) == lines_of(self.contents@)
    }

    /// The document named `path` with text `contents`, chunked by line.
    pub fn new(path: String, contents: String) -> (r: File)
        ensures
            r.path@ == path@,
            r.contents@ == contents@,
            views_of(r.rows@) == lines_of(contents@),
            r.wf(),
    {
        let rows = split_into_lines(contents.as_str());
        File { path, contents, rows }
    }
}

} // verus!
