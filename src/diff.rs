use vstd::prelude::*;

verus! {

/// The kind of a line of a diff, which decides how it is styled.
#[derive(Clone, Copy, Debug, PartialEq, Eq, Structural)]
pub enum LineType {
    FileHeader,
    HunkHeader,
    Context,
    Insertion,
    Deletion,
}

/// A line of a diff, classified and ready to be painted.
#[derive(Debug)]
pub struct DiffLine {
    pub kind: LineType,
    pub text: String,
}

impl View for DiffLine {
    type V = (LineType, Seq<char>);

    open spec fn view(&self) -> (LineType, Seq<char>) {
        (self.kind, self.text@)
    }
}

/// A line of a patch as the repository hands it out: its origin marker
/// (`'F'` file header, `'H'` hunk header, `'+'`, `'-'`, `' '` and others) and
/// its text.
#[derive(Debug)]
pub struct RawLine {
    pub origin: char,
    pub content: String,
}

impl View for RawLine {
    type V = (char, Seq<char>);

    open spec fn view(&self) -> (char, Seq<char>) {
        (self.origin, self.content@)
    }
}

/// Aggregate counts of a diff, as the repository computed them.
#[derive(Clone, Copy, Debug, PartialEq, Eq, Structural)]
pub struct DiffStats {
    pub files_changed: usize,
    pub insertions: usize,
    pub deletions: usize,
}

/// The classified lines of a commit's diff, with its counts.
#[derive(Debug)]
pub struct DiffModel {
    pub stats: DiffStats,
    pub lines: Vec<DiffLine>,
}

pub open spec fn lines_view(v: Seq<DiffLine>) -> Seq<(LineType, Seq<char>)> {
    v.map_values(|l: DiffLine| l@)
}

pub open spec fn raw_view(v: Seq<RawLine>) -> Seq<(char, Seq<char>)> {
    v.map_values(|l: RawLine| l@)
}

pub open spec fn strings_view(v: Seq<String>) -> Seq<Seq<char>> {
    v.map_values(|s: String| s@)
}

/// `t` cut at each line break, the breaks dropped: `k` breaks give `k + 1`
/// pieces, empty ones included.
pub open spec fn split_lines(t: Seq<char>) -> Seq<Seq<char>>
    decreases t.len(),
{
    if t.len() == 0 {
        seq![Seq::empty()]
    } else {
        let r = split_lines(t.drop_last());
        if t.last() == '\n' {
            r.push(Seq::empty())
        } else {
            r.update(r.len() - 1, r.last().push(t.last()))
        }
    }
}

/// The kind of a line that is neither a file nor a hunk header.
pub open spec fn marker_kind(origin: char) -> LineType {
    if origin == '+' {
        LineType::Insertion
    } else if origin == '-' {
        LineType::Deletion
    } else {
        LineType::Context
    }
}

/// The lines that one raw line becomes: a file header gives one line per
/// piece of its text, a hunk header one line as it is, any other line one
/// line prefixed by its marker and a space.
pub open spec fn classify_line(origin: char, text: Seq<char>) -> Seq<(LineType, Seq<char>)> {
    if origin == 'F' {
        split_lines(text).map_values(|l: Seq<char>| (LineType::FileHeader, l))
    } else if origin == 'H' {
        seq![(LineType::HunkHeader, text)]
    } else {
        seq![(marker_kind(origin), seq![origin, ' '] + text)]
    }
}

/// The classified lines of a whole patch, in order.
pub open spec fn classify(raw: Seq<(char, Seq<char>)>) -> Seq<(LineType, Seq<char>)>
    decreases raw.len(),
{
    if raw.len() == 0 {
        Seq::empty()
    } else {
        classify(raw.drop_last()) + classify_line(raw.last().0, raw.last().1)
    }
}

/// Relies on `char::to_string`: the string of that one character.
#[verifier::external_body]
fn char_string(c: char) -> (r: String)
    ensures
        r@ == seq![c],
{
    c.to_string()
}

/// Cuts `text` at each line break; see [`split_lines`].
pub fn split_text(text: &str) -> (r: Vec<String>)
    ensures
        strings_view(r@) == split_lines(text@),
{
    let n = text.unicode_len();
    let mut out: Vec<String> = Vec::new();
    let mut start: usize = 0;
    let mut i: usize = 0;
    assert(text@.subrange(0, 0) =~= Seq::<char>::empty());
    assert(strings_view(out@).push(text@.subrange(0, 0)) =~= seq![Seq::<char>::empty()]);
    while i < n
        invariant
            n == text@.len(),
            start <= i <= n,
            split_lines(text@.subrange(0, i as int)) == strings_view(out@).push(
                text@.subrange(start as int, i as int),
            ),
        decreases n - i,
    {
        let c = text.get_char(i);
        let ghost before = strings_view(out@);
        let ghost prefix = text@.subrange(0, i + 1);
        assert(prefix.drop_last() =~= text@.subrange(0, i as int));
        if c == '\n' {
            let piece = String::from_str(text.substring_char(start, i));
            let ghost old_out = out@;
            out.push(piece);
            assert(out@ == old_out.push(piece));
            assert(strings_view(out@) =~= before.push(piece@));
            start = i + 1;
            assert(text@.subrange(start as int, i + 1) =~= Seq::<char>::empty());
        } else {
            assert(text@.subrange(start as int, i + 1) =~= text@.subrange(
                start as int,
                i as int,
            ).push(c));
        }
        i = i + 1;
        assert(split_lines(text@.subrange(0, i as int)) =~= strings_view(out@).push(
            text@.subrange(start as int, i as int),
        ));
    }
    assert(text@.subrange(0, n as int) =~= text@);
    let piece = String::from_str(text.substring_char(start, n));
    let ghost old_out = out@;
    out.push(piece);
    assert(out@ == old_out.push(piece));
    assert(strings_view(out@) =~= split_lines(text@));
    out
}

/// Classifies a patch, line by line and in order; see [`classify`].
pub fn classify_lines(raw: &Vec<RawLine>) -> (r: Vec<DiffLine>)
    ensures
        lines_view(r@) == classify(raw_view(raw@)),
{
    let mut out: Vec<DiffLine> = Vec::new();
    let mut i: usize = 0;
    while i < raw.len()
        invariant
            i <= raw@.len(),
            lines_view(out@) == classify(raw_view(raw@).subrange(0, i as int)),
        decreases raw@.len() - i,
    {
        let line = &raw[i];
        let ghost before = lines_view(out@);
        let ghost done = raw_view(raw@).subrange(0, i + 1);
        assert(done.drop_last() =~= raw_view(raw@).subrange(0, i as int));
        assert(done.last() == line@);
        if line.origin == 'F' {
            let pieces = split_text(line.content.as_str());
            let ghost expected = split_lines(line.content@).map_values(
                |l: Seq<char>| (LineType::FileHeader, l),
            );
            let mut k: usize = 0;
            while k < pieces.len()
                invariant
                    k <= pieces@.len(),
                    strings_view(pieces@) == split_lines(line.content@),
                    expected == split_lines(line.content@).map_values(
                        |l: Seq<char>| (LineType::FileHeader, l),
                    ),
                    lines_view(out@) == before + expected.subrange(0, k as int),
                decreases pieces@.len() - k,
            {
                let piece = DiffLine { kind: LineType::FileHeader, text: pieces[k].clone() };
                let ghost old_out = out@;
                out.push(piece);
                assert(out@ == old_out.push(piece));
                assert(piece@ == expected[k as int]);
                assert(lines_view(out@) =~= lines_view(old_out).push(piece@));
                k = k + 1;
                assert(expected.subrange(0, k as int) =~= expected.subrange(
                    0,
                    k - 1,
                ).push(expected[k - 1]));
                assert(lines_view(out@) =~= before + expected.subrange(0, k as int));
            }
            assert(expected.subrange(0, k as int) =~= expected);
        } else if line.origin == 'H' {
            out.push(DiffLine { kind: LineType::HunkHeader, text: line.content.clone() });
            assert(lines_view(out@) =~= before + classify_line(line.origin, line.content@));
        } else {
            let kind = if line.origin == '+' {
                LineType::Insertion
            } else if line.origin == '-' {
                LineType::Deletion
            } else {
                LineType::Context
            };
            let mut text = char_string(line.origin);
            text.append(char_string(' ').as_str());
            text.append(line.content.as_str());
            out.push(DiffLine { kind, text });
            assert(seq![line.origin] + seq![' '] + line.content@ =~= seq![line.origin, ' ']
                + line.content@);
            assert(lines_view(out@) =~= before + classify_line(line.origin, line.content@));
        }
        i = i + 1;
    }
    assert(raw_view(raw@).subrange(0, i as int) =~= raw_view(raw@));
    out
}

impl DiffModel {
    /// The model of a diff whose counts the repository gave as `stats`.
    pub fn build(stats: DiffStats, raw: &Vec<RawLine>) -> (r: DiffModel)
        ensures
            r.stats == stats,
            lines_view(r.lines@) == classify(raw_view(raw@)),
    {
        DiffModel { stats, lines: classify_lines(raw) }
    }

    /// The model of a commit without a parent: no counts and no lines.
    pub fn empty() -> (r: DiffModel)
        ensures
            r.stats == (DiffStats { files_changed: 0, insertions: 0, deletions: 0 }),
            r.lines@.len() == 0,
    {
        DiffModel {
            stats: DiffStats { files_changed: 0, insertions: 0, deletions: 0 },
            lines: Vec::new(),
        }
    }
}

} // verus!
