//! Lines: a text that is written line by line.

use vstd::prelude::*;

verus! {

/// The text of lines, each of which ends with a line break.
pub open spec fn render(lines: Seq<Seq<char>>) -> Seq<char>
    decreases lines.len(),
{
    if lines.len() == 0 {
        Seq::empty()
    } else {
        render(lines.drop_last()) + lines.last() + seq!['\n']
    }
}

/// What a list of fixed lines holds.
pub open spec fn texts(lines: Seq<&'static str>) -> Seq<Seq<char>> {
    lines.map_values(|l: &'static str| l@)
}

/// The text of two lists of lines is the text of the one and then that of the
/// other.
pub proof fn render_concatenates(a: Seq<Seq<char>>, b: Seq<Seq<char>>)
    ensures
        render(a + b) == render(a) + render(b),
    decreases b.len(),
{
    if b.len() == 0 {
        assert(a + b =~= a);
        assert(render(a) + render(b) =~= render(a));
    } else {
        render_concatenates(a, b.drop_last());
        assert((a + b).drop_last() =~= a + b.drop_last());
        assert(render(a) + (render(b.drop_last()) + b.last() + seq!['\n']) =~= render(a) + render(
            b.drop_last(),
        ) + b.last() + seq!['\n']);
    }
}

// ---------------------------------------------------------------------------
// Lines with fields
// ---------------------------------------------------------------------------

/// One field between the texts of `p`.
pub open spec fn filled1(p: Seq<&'static str>, a: Seq<char>) -> Seq<char> {
    p[0]@ + a + p[1]@
}

/// Two fields between the texts of `p`.
pub open spec fn filled2(p: Seq<&'static str>, a: Seq<char>, b: Seq<char>) -> Seq<char> {
    p[0]@ + a + p[1]@ + b + p[2]@
}

/// Three fields between the texts of `p`.
pub open spec fn filled3(p: Seq<&'static str>, a: Seq<char>, b: Seq<char>, c: Seq<char>) -> Seq<char> {
    p[0]@ + a + p[1]@ + b + p[2]@ + c + p[3]@
}

/// Four fields between the texts of `p`.
pub open spec fn filled4(p: Seq<&'static str>, a: Seq<char>, b: Seq<char>, c: Seq<char>, d: Seq<char>) -> Seq<char> {
    p[0]@ + a + p[1]@ + b + p[2]@ + c + p[3]@ + d + p[4]@
}

/// Five fields between the texts of `p`.
pub open spec fn filled5(p: Seq<&'static str>, a: Seq<char>, b: Seq<char>, c: Seq<char>, d: Seq<char>, e: Seq<char>) -> Seq<char> {
    p[0]@ + a + p[1]@ + b + p[2]@ + c + p[3]@ + d + p[4]@ + e + p[5]@
}

/// Writes one field between the texts of `p`.
pub fn fill1(p: &[&'static str], a: &str) -> (r: String)
    requires
        p@.len() == 2,
    ensures
        r@ == filled1(p@, a@),
{
    let mut r = p[0].to_owned();
    r.append(a);
    r.append(p[1]);
    r
}

/// Writes two fields between the texts of `p`.
pub fn fill2(p: &[&'static str], a: &str, b: &str) -> (r: String)
    requires
        p@.len() == 3,
    ensures
        r@ == filled2(p@, a@, b@),
{
    let mut r = p[0].to_owned();
    r.append(a);
    r.append(p[1]);
    r.append(b);
    r.append(p[2]);
    r
}

/// Writes three fields between the texts of `p`.
pub fn fill3(p: &[&'static str], a: &str, b: &str, c: &str) -> (r: String)
    requires
        p@.len() == 4,
    ensures
        r@ == filled3(p@, a@, b@, c@),
{
    let mut r = p[0].to_owned();
    r.append(a);
    r.append(p[1]);
    r.append(b);
    r.append(p[2]);
    r.append(c);
    r.append(p[3]);
    r
}

/// Writes four fields between the texts of `p`.
pub fn fill4(p: &[&'static str], a: &str, b: &str, c: &str, d: &str) -> (r: String)
    requires
        p@.len() == 5,
    ensures
        r@ == filled4(p@, a@, b@, c@, d@),
{
    let mut r = p[0].to_owned();
    r.append(a);
    r.append(p[1]);
    r.append(b);
    r.append(p[2]);
    r.append(c);
    r.append(p[3]);
    r.append(d);
    r.append(p[4]);
    r
}

/// Writes five fields between the texts of `p`.
pub fn fill5(p: &[&'static str], a: &str, b: &str, c: &str, d: &str, e: &str) -> (r: String)
    requires
        p@.len() == 6,
    ensures
        r@ == filled5(p@, a@, b@, c@, d@, e@),
{
    let mut r = p[0].to_owned();
    r.append(a);
    r.append(p[1]);
    r.append(b);
    r.append(p[2]);
    r.append(c);
    r.append(p[3]);
    r.append(d);
    r.append(p[4]);
    r.append(e);
    r.append(p[5]);
    r
}

// ---------------------------------------------------------------------------
// Growing
// ---------------------------------------------------------------------------

/// A list of lines that grows.
pub struct Lines {
    items: Vec<String>,
}

impl View for Lines {
    type V = Seq<Seq<char>>;

    closed spec fn view(&self) -> Seq<Seq<char>> {
        self.items@.map_values(|l: String| l@)
    }
}

impl Lines {
    /// No lines.
    pub fn new() -> (r: Self)
        ensures
            r@ == Seq::<Seq<char>>::empty(),
    {
        let r = Lines { items: Vec::new() };
        assert(r@ =~= Seq::<Seq<char>>::empty());
        r
    }

    /// Fixed lines.
    pub fn of(lines: &[&'static str]) -> (r: Self)
        ensures
            r@ == texts(lines@),
    {
        let mut r = Lines::new();
        r.all(lines);
        assert(r@ =~= texts(lines@));
        r
    }

    /// Appends a line.
    pub fn own(&mut self, line: String)
        ensures
            final(self)@ == old(self)@.push(line@),
    {
        let ghost before = self@;
        self.items.push(line);
        assert(self@ =~= before.push(line@));
    }

    /// Appends a line.
    pub fn line(&mut self, line: &str)
        ensures
            final(self)@ == old(self)@.push(line@),
    {
        self.own(line.to_owned());
    }

    /// Appends fixed lines.
    pub fn all(&mut self, lines: &[&'static str])
        ensures
            final(self)@ == old(self)@ + texts(lines@),
    {
        let ghost before = self@;
        let mut k: usize = 0;
        assert(before + texts(lines@.take(0)) =~= before);
        while k < lines.len()
            invariant
                k <= lines@.len(),
                self@ == before + texts(lines@.take(k as int)),
            decreases lines@.len() - k,
        {
            self.line(lines[k]);
            assert(before + texts(lines@.take(k + 1)) =~= (before + texts(
                lines@.take(k as int),
            )).push(lines@[k as int]@));
            k += 1;
        }
        assert(lines@.take(k as int) =~= lines@);
    }

    /// Writes the lines to the end of a text.
    pub fn write_to(&self, text: &mut String)
        ensures
            final(text)@ == old(text)@ + render(self@),
    {
        let ghost before = text@;
        let mut k: usize = 0;
        assert(before + render(self@.take(0)) =~= before);
        while k < self.items.len()
            invariant
                k <= self.items@.len(),
                self@.len() == self.items@.len(),
                text@ == before + render(self@.take(k as int)),
            decreases self.items@.len() - k,
        {
            text.append(self.items[k].as_str());
            text.push('\n');
            assert(self@.take(k + 1).drop_last() =~= self@.take(k as int));
            assert(self@.take(k + 1).last() == self.items@[k as int]@);
            assert(text@ =~= before + render(self@.take(k + 1)));
            k += 1;
        }
        assert(self@.take(k as int) =~= self@);
    }
}

// ---------------------------------------------------------------------------
// Reading lines back
// ---------------------------------------------------------------------------

/// Whether a text stands on one line.
pub open spec fn is_one_line(s: Seq<char>) -> bool {
    !s.contains('\n')
}

/// The lines of a text in which each line ends with a line break. What stands
/// behind the last line break is left out.
pub open spec fn lines_of(text: Seq<char>) -> Seq<Seq<char>>
    decreases text.len(),
{
    if !text.contains('\n') {
        Seq::empty()
    } else {
        let end = text.index_of_first('\n')->0;
        if 0 <= end < text.len() {
            seq![text.take(end)] + lines_of(text.skip(end + 1))
        } else {
            Seq::empty()
        }
    }
}

/// Lines that were written can be read back, if none of them holds a line break.
pub proof fn lines_read_back(lines: Seq<Seq<char>>)
    requires
        forall|i: int| 0 <= i < lines.len() ==> is_one_line(#[trigger] lines[i]),
    ensures
        lines_of(render(lines)) == lines,
    decreases lines.len(),
{
    if lines.len() == 0 {
        assert(lines_of(render(lines)) =~= lines);
    } else {
        let first = lines[0];
        let rest = lines.skip(1);
        assert(lines =~= seq![first] + rest);
        render_concatenates(seq![first], rest);
        assert(seq![first].drop_last() =~= Seq::<Seq<char>>::empty());
        assert(render(Seq::<Seq<char>>::empty()) =~= Seq::<char>::empty());
        assert(render(seq![first]) =~= first + seq!['\n']);
        let text = render(lines);
        let end = first.len() as int;
        assert(text =~= first + seq!['\n'] + render(rest));
        assert(text[end] == '\n');
        assert forall|j: int| 0 <= j < end implies text[j] != '\n' by {
            assert(text[j] == first[j]);
            assert(is_one_line(lines[0]));
            assert(first.contains(first[j]));
        }
        text.index_of_first_ensures('\n');
        assert(text.contains('\n'));
        let found = text.index_of_first('\n')->0;
        assert(found == end);
        assert(text.take(end) =~= first);
        assert(text.skip(end + 1) =~= render(rest));
        assert forall|i: int| 0 <= i < rest.len() implies is_one_line(#[trigger] rest[i]) by {
            assert(rest[i] == lines[i + 1]);
        }
        lines_read_back(rest);
    }
}

} // verus!
