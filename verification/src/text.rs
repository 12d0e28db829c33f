//! Character-level text helpers with exact specifications.

use vstd::prelude::*;

verus! {

/// Unicode's `White_Space` property, the set that `char::is_whitespace`
/// tests: U+0009..U+000D, U+0020, U+0085, U+00A0, U+1680, U+2000..U+200A,
/// U+2028, U+2029, U+202F, U+205F and U+3000.
pub open spec fn is_white_space(c: char) -> bool {
    let v = c as u32;
    ||| 0x09 <= v && v <= 0x0d
    ||| v == 0x20
    ||| v == 0x85
    ||| v == 0xa0
    ||| v == 0x1680
    ||| 0x2000 <= v && v <= 0x200a
    ||| v == 0x2028
    ||| v == 0x2029
    ||| v == 0x202f
    ||| v == 0x205f
    ||| v == 0x3000
}

/// Whether `c` is white space in Unicode's sense (as `char::is_whitespace`).
pub fn is_white_space_char(c: char) -> (b: bool)
    ensures
        b == is_white_space(c),
{
    let v = c as u32;
    (0x09 <= v && v <= 0x0d) || v == 0x20 || v == 0x85 || v == 0xa0 || v == 0x1680 || (0x2000
        <= v && v <= 0x200a) || v == 0x2028 || v == 0x2029 || v == 0x202f || v == 0x205f || v
        == 0x3000
}

/// `s` without its trailing white space (what `str::trim_end` leaves).
pub open spec fn trim_end(s: Seq<char>) -> Seq<char>
    decreases s.len(),
{
    if s.len() > 0 && is_white_space(s.last()) {
        trim_end(s.drop_last())
    } else {
        s
    }
}

/// Whether every character of `s` is white space (so `str::trim` leaves
/// nothing of it).
pub open spec fn is_blank(s: Seq<char>) -> bool {
    forall|i: int| 0 <= i < s.len() ==> is_white_space(#[trigger] s[i])
}

/// The pieces of `s` between its line feeds, in order; there is always one
/// more piece than there are line feeds.
pub open spec fn split_lines(s: Seq<char>) -> Seq<Seq<char>>
    decreases s.len(),
{
    if s.len() == 0 {
        seq![Seq::<char>::empty()]
    } else {
        let p = split_lines(s.drop_last());
        if s.last() == '\n' {
            p.push(Seq::<char>::empty())
        } else {
            p.update(p.len() - 1, p.last().push(s.last()))
        }
    }
}

/// The lines of `s` as `str::lines` yields them before trimming: the pieces
/// between line feeds, without the empty piece after a final line feed, and
/// none at all for the empty text.
pub open spec fn text_lines(s: Seq<char>) -> Seq<Seq<char>> {
    if s.len() == 0 {
        Seq::<Seq<char>>::empty()
    } else if s.last() == '\n' {
        split_lines(s).drop_last()
    } else {
        split_lines(s)
    }
}

/// The lines joined with a line feed between each two.
pub open spec fn join_lines(lines: Seq<Seq<char>>) -> Seq<char>
    decreases lines.len(),
{
    if lines.len() == 0 {
        Seq::<char>::empty()
    } else if lines.len() == 1 {
        lines[0]
    } else {
        join_lines(lines.drop_last()) + seq!['\n'] + lines.last()
    }
}

/// The text with the trailing white space of each of its lines removed:
/// `s.lines().map(str::trim_end).collect::<Vec<_>>().join("\n")`.
pub open spec fn trim_line_ends(s: Seq<char>) -> Seq<char> {
    join_lines(text_lines(s).map_values(|l: Seq<char>| trim_end(l)))
}

/// Trimming removes white space at the end and nothing else: what is left
/// is a prefix of the text that does not end in white space, and everything
/// removed is white space.
pub proof fn lemma_trim_end_removes_only_trailing_space(s: Seq<char>)
    ensures
        trim_end(s).len() <= s.len(),
        trim_end(s) == s.take(trim_end(s).len() as int),
        trim_end(s).len() > 0 ==> !is_white_space(trim_end(s).last()),
        forall|i: int| trim_end(s).len() <= i < s.len() ==> is_white_space(#[trigger] s[i]),
    decreases s.len(),
{
    if s.len() > 0 && is_white_space(s.last()) {
        lemma_trim_end_removes_only_trailing_space(s.drop_last());
        let t = trim_end(s.drop_last());
        assert(s.drop_last().take(t.len() as int) =~= s.take(t.len() as int));
        assert forall|i: int| t.len() <= i < s.len() implies is_white_space(#[trigger] s[i]) by {
            if i < s.len() - 1 {
                assert(s.drop_last()[i] == s[i]);
            }
        }
    } else {
        assert(s.take(s.len() as int) =~= s);
    }
}

proof fn lemma_split_lines_nonempty(s: Seq<char>)
    ensures
        split_lines(s).len() >= 1,
    decreases s.len(),
{
    if s.len() > 0 {
        lemma_split_lines_nonempty(s.drop_last());
    }
}

/// The characters of `v` with trailing white space removed.
pub fn trimmed_end(v: &Vec<char>) -> (r: Vec<char>)
    ensures
        r@ == trim_end(v@),
{
    let mut n: usize = v.len();
    proof {
        assert(v@.subrange(0, n as int) =~= v@);
    }
    while n > 0 && is_white_space_char(v[n - 1])
        invariant
            n <= v@.len(),
            trim_end(v@.subrange(0, n as int)) == trim_end(v@),
        decreases n,
    {
        proof {
            assert(v@.subrange(0, n as int).drop_last() =~= v@.subrange(0, n - 1));
        }
        n = n - 1;
    }
    let mut r: Vec<char> = Vec::new();
    let mut i: usize = 0;
    while i < n
        invariant
            n <= v@.len(),
            i <= n,
            r@ =~= v@.subrange(0, i as int),
        decreases n - i,
    {
        r.push(v[i]);
        i = i + 1;
    }
    proof {
        assert(r@ =~= v@.subrange(0, n as int));
    }
    r
}

/// The pieces of `v` between its line feeds (see `split_lines`).
pub fn split_at_line_feeds(v: &Vec<char>) -> (pieces: Vec<Vec<char>>)
    ensures
        pieces@.len() == split_lines(v@).len(),
        forall|i: int| 0 <= i < pieces@.len() ==> #[trigger] pieces@[i]@ == split_lines(v@)[i],
{
    let mut done: Vec<Vec<char>> = Vec::new();
    let mut cur: Vec<char> = Vec::new();
    let mut i: usize = 0;
    proof {
        assert(v@.subrange(0, 0) =~= Seq::<char>::empty());
    }
    while i < v.len()
        invariant
            i <= v@.len(),
            split_lines(v@.subrange(0, i as int)).len() == done@.len() + 1,
            forall|j: int| 0 <= j < done@.len() ==> #[trigger] done@[j]@ == split_lines(v@.subrange(0, i as int))[j],
            cur@ == split_lines(v@.subrange(0, i as int)).last(),
        decreases v@.len() - i,
    {
        let c = v[i];
        proof {
            assert(v@.subrange(0, i + 1).drop_last() =~= v@.subrange(0, i as int));
            lemma_split_lines_nonempty(v@.subrange(0, i as int));
        }
        if c == '\n' {
            let finished = cur;
            done.push(finished);
            cur = Vec::new();
        } else {
            cur.push(c);
        }
        i = i + 1;
    }
    proof {
        assert(v@.subrange(0, v@.len() as int) =~= v@);
    }
    done.push(cur);
    done
}

/// The text with the trailing white space of each line removed (see
/// `trim_line_ends`).
pub fn trim_line_ends_of(v: &Vec<char>) -> (r: Vec<char>)
    ensures
        r@ == trim_line_ends(v@),
{
    let pieces = split_at_line_feeds(v);
    let ghost lines = text_lines(v@);
    let count: usize = if v.len() == 0 {
        0
    } else if v[v.len() - 1] == '\n' {
        pieces.len() - 1
    } else {
        pieces.len()
    };
    proof {
        lemma_split_lines_nonempty(v@);
    }
    let ghost trimmed = lines.map_values(|l: Seq<char>| trim_end(l));
    assert(count == lines.len());
    let mut r: Vec<char> = Vec::new();
    let mut i: usize = 0;
    while i < count
        invariant
            count == lines.len(),
            count <= pieces@.len(),
            trimmed == lines.map_values(|l: Seq<char>| trim_end(l)),
            forall|j: int| 0 <= j < count ==> #[trigger] pieces@[j]@ == lines[j],
            i <= count,
            r@ == join_lines(trimmed.take(i as int)),
        decreases count - i,
    {
        let t = trimmed_end(&pieces[i]);
        proof {
            assert(trimmed.take(i + 1).drop_last() =~= trimmed.take(i as int));
        }
        if i > 0 {
            r.push('\n');
        }
        let mut j: usize = 0;
        let ghost base = r@;
        while j < t.len()
            invariant
                j <= t@.len(),
                r@ == base + t@.subrange(0, j as int),
            decreases t@.len() - j,
        {
            r.push(t[j]);
            j = j + 1;
            proof {
                assert(base + t@.subrange(0, j as int) =~= (base + t@.subrange(0, j - 1)).push(t@[j - 1]));
            }
        }
        proof {
            assert(t@.subrange(0, t@.len() as int) =~= t@);
            if i == 0 {
                assert(base =~= Seq::<char>::empty());
                assert(r@ =~= trimmed.take(1)[0]);
            } else {
                assert(r@ =~= join_lines(trimmed.take(i as int)) + seq!['\n'] + trimmed.take(i + 1).last());
            }
        }
        i = i + 1;
    }
    proof {
        assert(trimmed.take(count as int) =~= trimmed);
    }
    r
}

} // verus!
