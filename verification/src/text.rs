//! Character-sequence helpers: the string operations the compiler host relies on,
//! proved against plain sequence specifications.
use vstd::prelude::*;

verus! {

/// The characters of a string slice, in order.
pub fn chars_of(s: &str) -> (r: Vec<char>)
    ensures
        r@ == s@,
{
    broadcast use vstd::string::group_string_axioms;
    let mut r: Vec<char> = Vec::new();
    for c in it: s.chars()
        invariant
            it.seq() == s@,
            r@ == s@.take(it.index() as int),
    {
        r.push(c);
        assert(r@ =~= s@.take(it.index() + 1));
    }
    assert(s@.take(s@.len() as int) =~= s@);
    r
}

/// A string holding exactly the given characters, collected by std's `FromIterator`
/// for `String`, which pushes each character in turn.
#[verifier::external_body]
pub(crate) fn string_of(cs: &[char]) -> (r: String)
    ensures
        r@ == cs@,
{
    cs.iter().collect()
}

/// `p` is a prefix of `s`.
pub open spec fn has_prefix(s: Seq<char>, p: Seq<char>) -> bool {
    p.len() <= s.len() && s.subrange(0, p.len() as int) == p
}

/// `p` is a suffix of `s`.
pub open spec fn has_suffix(s: Seq<char>, p: Seq<char>) -> bool {
    p.len() <= s.len() && s.subrange(s.len() - p.len(), s.len() as int) == p
}

/// Whether `p` occurs in `s` at position `at`.
pub fn matches_at(s: &[char], p: &[char], at: usize) -> (r: bool)
    requires
        at <= s@.len(),
    ensures
        r == has_prefix(s@.skip(at as int), p@),
{
    if p.len() > s.len() - at {
        return false;
    }
    let mut i: usize = 0;
    while i < p.len()
        invariant
            at + p@.len() <= s@.len(),
            at + p.len() <= s.len(),
            i <= p@.len(),
            forall|j: int| 0 <= j < i ==> s@[at + j] == p@[j],
        decreases p@.len() - i,
    {
        if s[at + i] != p[i] {
            assert(s@.skip(at as int).subrange(0, p@.len() as int)[i as int] != p@[i as int]);
            return false;
        }
        i = i + 1;
    }
    assert(s@.skip(at as int).subrange(0, p@.len() as int) =~= p@);
    true
}

/// Whether `s` ends with `p`.
pub fn ends_with(s: &[char], p: &[char]) -> (r: bool)
    ensures
        r == has_suffix(s@, p@),
{
    if p.len() > s.len() {
        return false;
    }
    let at = s.len() - p.len();
    let m = matches_at(s, p, at);
    proof {
        assert(s@.skip(at as int).subrange(0, p@.len() as int) =~= s@.subrange(
            s@.len() - p@.len(),
            s@.len() as int,
        ));
    }
    m
}

/// Whether two character sequences are equal.
pub fn chars_equal(a: &[char], b: &[char]) -> (r: bool)
    ensures
        r == (a@ == b@),
{
    if a.len() != b.len() {
        return false;
    }
    let mut i: usize = 0;
    while i < a.len()
        invariant
            a@.len() == b@.len(),
            i <= a@.len(),
            forall|j: int| 0 <= j < i ==> a@[j] == b@[j],
        decreases a@.len() - i,
    {
        if a[i] != b[i] {
            return false;
        }
        i = i + 1;
    }
    assert(a@ =~= b@);
    true
}

/// Appends every character of `cs` to `out`.
pub fn push_all(out: &mut Vec<char>, cs: &[char])
    ensures
        final(out)@ == old(out)@ + cs@,
{
    let mut i: usize = 0;
    while i < cs.len()
        invariant
            i <= cs@.len(),
            out@ == old(out)@ + cs@.subrange(0, i as int),
        decreases cs@.len() - i,
    {
        out.push(cs[i]);
        i = i + 1;
        assert(out@ =~= old(out)@ + cs@.subrange(0, i as int));
    }
    assert(cs@.subrange(0, cs@.len() as int) =~= cs@);
}

/// Appends every character of the string slice `s` to `out`.
pub fn push_str(out: &mut Vec<char>, s: &str)
    ensures
        final(out)@ == old(out)@ + s@,
{
    let cs = chars_of(s);
    push_all(out, cs.as_slice());
}

/// `s` with every occurrence of `pat` replaced by `rep`, scanning from the left and
/// never letting two replaced occurrences overlap.
pub open spec fn replace_all(s: Seq<char>, pat: Seq<char>, rep: Seq<char>) -> Seq<char>
    decreases s.len(),
{
    if s.len() == 0 || pat.len() == 0 {
        s
    } else if has_prefix(s, pat) {
        rep + replace_all(s.skip(pat.len() as int), pat, rep)
    } else {
        seq![s[0]] + replace_all(s.skip(1), pat, rep)
    }
}

/// Replaces every occurrence of the non-empty pattern `pat` in `s` by `rep`.
pub fn replace_all_chars(s: &[char], pat: &[char], rep: &[char]) -> (r: Vec<char>)
    requires
        pat@.len() > 0,
    ensures
        r@ == replace_all(s@, pat@, rep@),
{
    let mut out: Vec<char> = Vec::new();
    let mut i: usize = 0;
    assert(s@.skip(0) =~= s@);
    assert(out@ + replace_all(s@, pat@, rep@) =~= replace_all(s@, pat@, rep@));
    while i < s.len()
        invariant
            i <= s@.len(),
            pat@.len() > 0,
            out@ + replace_all(s@.skip(i as int), pat@, rep@) == replace_all(s@, pat@, rep@),
        decreases s@.len() - i,
    {
        let ghost rest = s@.skip(i as int);
        if matches_at(s, pat, i) {
            assert(rest.skip(pat@.len() as int) =~= s@.skip(i + pat@.len()));
            let ghost before = out@;
            push_all(&mut out, rep);
            assert(out@ + replace_all(s@.skip(i + pat@.len()), pat@, rep@) =~= before + (rep@
                + replace_all(rest.skip(pat@.len() as int), pat@, rep@)));
            i = i + pat.len();
        } else {
            assert(rest.skip(1) =~= s@.skip(i + 1));
            let ghost before = out@;
            out.push(s[i]);
            assert(out@ + replace_all(s@.skip(i + 1), pat@, rep@) =~= before + (seq![rest[0]]
                + replace_all(rest.skip(1), pat@, rep@)));
            i = i + 1;
        }
    }
    assert(s@.skip(i as int) =~= Seq::<char>::empty());
    assert(out@ + Seq::<char>::empty() =~= out@);
    out
}

/// Index of the first line feed in `s`, or the length of `s` when there is none.
pub open spec fn line_end(s: Seq<char>) -> nat
    decreases s.len(),
{
    if s.len() == 0 {
        0
    } else if s[0] == '\n' {
        0
    } else {
        1 + line_end(s.skip(1))
    }
}

/// The lines of `s` as `str::lines` yields them: pieces split at each line feed, a
/// carriage return just before a line feed dropped with it, and no empty piece after
/// a final line feed.
pub open spec fn lines(s: Seq<char>) -> Seq<Seq<char>>
    decreases s.len(),
{
    if s.len() == 0 {
        seq![]
    } else {
        let k = line_end(s);
        if k >= s.len() {
            seq![s]
        } else {
            let raw = s.take(k as int);
            let line = if raw.len() > 0 && raw.last() == '\r' {
                raw.drop_last()
            } else {
                raw
            };
            seq![line] + lines(s.skip(k + 1 as int))
        }
    }
}

/// A position `k` before which `s` has no line feed, and at which `s` ends or has
/// one, is the line end of `s`.
pub proof fn lemma_line_end(s: Seq<char>, k: nat)
    requires
        k <= s.len(),
        forall|m: int| 0 <= m < k ==> s[m] != '\n',
        k == s.len() || s[k as int] == '\n',
    ensures
        line_end(s) == k,
    decreases k,
{
    if k > 0 {
        assert forall|m: int| 0 <= m < k - 1 implies s.skip(1)[m] != '\n' by {
            assert(s.skip(1)[m] == s[m + 1]);
        }
        if k < s.len() {
            assert(s.skip(1)[k - 1] == s[k as int]);
        }
        lemma_line_end(s.skip(1), (k - 1) as nat);
    }
}

/// Splits `s` into its lines, as `lines` describes them.
pub fn split_lines(s: &[char]) -> (r: Vec<Vec<char>>)
    ensures
        r.deep_view() == lines(s@),
{
    let mut out: Vec<Vec<char>> = Vec::new();
    let mut i: usize = 0;
    assert(s@.skip(0) =~= s@);
    assert(out.deep_view() + lines(s@) =~= lines(s@));
    while i < s.len()
        invariant
            i <= s@.len(),
            out.deep_view() + lines(s@.skip(i as int)) == lines(s@),
        decreases s@.len() - i,
    {
        let ghost rest = s@.skip(i as int);
        let mut j: usize = i;
        while j < s.len() && s[j] != '\n'
            invariant
                i <= j <= s@.len(),
                forall|m: int| i <= m < j ==> s@[m] != '\n',
            decreases s@.len() - j,
        {
            j = j + 1;
        }
        proof {
            assert forall|m: int| 0 <= m < j - i implies rest[m] != '\n' by {
                assert(rest[m] == s@[i + m]);
            }
            if j < s.len() {
                assert(rest[j - i] == s@[j as int]);
            }
            lemma_line_end(rest, (j - i) as nat);
        }
        let mut line: Vec<char> = Vec::new();
        let mut end: usize = j;
        if j < s.len() && j > i && s[j - 1] == '\r' {
            end = j - 1;
        }
        let mut m: usize = i;
        while m < end
            invariant
                i <= m <= end <= j <= s@.len(),
                line@ == s@.subrange(i as int, m as int),
            decreases end - m,
        {
            line.push(s[m]);
            m = m + 1;
            assert(line@ =~= s@.subrange(i as int, m as int));
        }
        let ghost before = out.deep_view();
        let ghost before_vec = out@;
        assert(line.deep_view() =~= s@.subrange(i as int, end as int));
        out.push(line);
        proof {
            assert(out@ == before_vec.push(line));
            assert(out.deep_view() =~= before.push(s@.subrange(i as int, end as int)));
            let raw = rest.take((j - i) as int);
            assert(raw =~= s@.subrange(i as int, j as int));
            if j < s.len() {
                assert(rest.skip((j - i) + 1) =~= s@.skip(j + 1));
                if j > i && s@[j - 1] == '\r' {
                    assert(raw.drop_last() =~= s@.subrange(i as int, end as int));
                }
                assert(out.deep_view() + lines(s@.skip(j + 1)) =~= before + lines(rest));
            } else {
                assert(rest =~= s@.subrange(i as int, end as int));
                assert(s@.skip(j as int) =~= Seq::<char>::empty());
                assert(out.deep_view() + lines(s@.skip(j as int)) =~= before + lines(rest));
            }
        }
        if j < s.len() {
            i = j + 1;
        } else {
            i = j;
        }
    }
    assert(s@.skip(i as int) =~= Seq::<char>::empty());
    assert(out.deep_view() + Seq::<Seq<char>>::empty() =~= out.deep_view());
    out
}

/// The decimal digit character for `d < 10`.
pub open spec fn digit_char(d: nat) -> char {
    if d == 0 { '0' }
    else if d == 1 { '1' }
    else if d == 2 { '2' }
    else if d == 3 { '3' }
    else if d == 4 { '4' }
    else if d == 5 { '5' }
    else if d == 6 { '6' }
    else if d == 7 { '7' }
    else if d == 8 { '8' }
    else { '9' }
}

/// The decimal notation of `n`, without leading zeros.
pub open spec fn decimal(n: nat) -> Seq<char>
    decreases n,
{
    if n < 10 {
        seq![digit_char(n)]
    } else {
        decimal(n / 10) + seq![digit_char(n % 10)]
    }
}

fn digit(d: usize) -> (c: char)
    requires
        d < 10,
    ensures
        c == digit_char(d as nat),
{
    if d == 0 { '0' }
    else if d == 1 { '1' }
    else if d == 2 { '2' }
    else if d == 3 { '3' }
    else if d == 4 { '4' }
    else if d == 5 { '5' }
    else if d == 6 { '6' }
    else if d == 7 { '7' }
    else if d == 8 { '8' }
    else { '9' }
}

/// Appends the decimal notation of `n` to `out`.
pub fn push_decimal(out: &mut Vec<char>, n: usize)
    ensures
        final(out)@ == old(out)@ + decimal(n as nat),
    decreases n,
{
    if n < 10 {
        out.push(digit(n));
        assert(out@ =~= old(out)@ + decimal(n as nat));
    } else {
        push_decimal(out, n / 10);
        out.push(digit(n % 10));
        assert(out@ =~= old(out)@ + decimal(n as nat));
    }
}

/// `s` right-aligned in a field of `width` characters, padded with spaces.
pub open spec fn pad_left(s: Seq<char>, width: nat) -> Seq<char> {
    if s.len() < width {
        Seq::new((width - s.len()) as nat, |i: int| ' ') + s
    } else {
        s
    }
}

/// One line of a numbered listing: the line number right-aligned in three
/// columns, two spaces, then the line.
pub open spec fn numbered_line(n: nat, line: Seq<char>) -> Seq<char> {
    pad_left(decimal(n), 3) + seq![' ', ' '] + line
}

/// `p` occurs nowhere in `s`.
pub open spec fn occurs_nowhere(s: Seq<char>, p: Seq<char>) -> bool {
    forall|i: int| 0 <= i <= s.len() ==> !has_prefix(#[trigger] s.skip(i), p)
}

/// Replacing a pattern that occurs nowhere leaves the text as it is.
pub proof fn lemma_replace_absent(s: Seq<char>, pat: Seq<char>, rep: Seq<char>)
    requires
        occurs_nowhere(s, pat),
    ensures
        replace_all(s, pat, rep) == s,
    decreases s.len(),
{
    if s.len() > 0 && pat.len() > 0 {
        assert(s.skip(0) =~= s);
        assert(!has_prefix(s, pat));
        let t = s.skip(1);
        assert forall|i: int| 0 <= i <= t.len() implies !has_prefix(#[trigger] t.skip(i), pat) by {
            assert(t.skip(i) =~= s.skip(i + 1));
        }
        lemma_replace_absent(t, pat, rep);
        assert(seq![s[0]] + t =~= s);
    }
}

/// Replacing the pattern in text that starts with it, and has it nowhere after that,
/// gives the replacement followed by the rest.
pub proof fn lemma_replace_leading(x: Seq<char>, pat: Seq<char>, rep: Seq<char>)
    requires
        pat.len() > 0,
        occurs_nowhere(x, pat),
    ensures
        replace_all(pat + x, pat, rep) == rep + x,
{
    let s = pat + x;
    assert(s.subrange(0, pat.len() as int) =~= pat);
    assert(s.skip(pat.len() as int) =~= x);
    lemma_replace_absent(x, pat, rep);
}

/// What `line_end` finds: a position no later than the end, with no line feed before
/// it and a line feed at it unless it is the end.
pub proof fn lemma_line_end_facts(s: Seq<char>)
    ensures
        line_end(s) <= s.len(),
        forall|m: int| 0 <= m < line_end(s) ==> s[m] != '\n',
        line_end(s) < s.len() ==> s[line_end(s) as int] == '\n',
    decreases s.len(),
{
    if s.len() > 0 && s[0] != '\n' {
        lemma_line_end_facts(s.skip(1));
        assert forall|m: int| 0 <= m < line_end(s) implies s[m] != '\n' by {
            if m > 0 {
                assert(s[m] == s.skip(1)[m - 1]);
            }
        }
        if line_end(s) < s.len() {
            assert(s[line_end(s) as int] == s.skip(1)[line_end(s.skip(1)) as int]);
        }
    }
}

/// Lines written back one after another, each ended by a line feed.
pub open spec fn unlines(ls: Seq<Seq<char>>) -> Seq<char>
    decreases ls.len(),
{
    if ls.len() == 0 {
        seq![]
    } else {
        ls[0] + seq!['\n'] + unlines(ls.skip(1))
    }
}

/// Text without carriage returns is its lines written back, up to a final line feed:
/// exactly when it is empty or ends with one, and with one added otherwise.
pub proof fn lemma_lines_round_trip(s: Seq<char>)
    requires
        forall|i: int| 0 <= i < s.len() ==> s[i] != '\r',
    ensures
        s.len() == 0 || s.last() == '\n' ==> unlines(lines(s)) == s,
        s.len() > 0 && s.last() != '\n' ==> unlines(lines(s)) == s.push('\n'),
    decreases s.len(),
{
    if s.len() > 0 {
        lemma_line_end_facts(s);
        let k = line_end(s);
        if k >= s.len() {
            assert(lines(s) =~= seq![s]);
            assert(lines(s).skip(1) =~= Seq::<Seq<char>>::empty());
            assert(unlines(lines(s).skip(1)) == Seq::<char>::empty());
            assert(lines(s)[0] == s);
            assert(s.last() == s[s.len() - 1]);
            assert(s.last() != '\n');
            assert(unlines(lines(s)) =~= s.push('\n'));
        } else {
            let raw = s.take(k as int);
            let rest = s.skip(k + 1 as int);
            if raw.len() > 0 {
                assert(raw.last() == s[k - 1]);
            }
            assert forall|i: int| 0 <= i < rest.len() implies rest[i] != '\r' by {
                assert(rest[i] == s[k + 1 + i]);
            }
            lemma_lines_round_trip(rest);
            assert(lines(s) == seq![raw] + lines(rest));
            assert((seq![raw] + lines(rest)).skip(1) =~= lines(rest));
            assert(raw + seq!['\n'] + rest =~= s);
            if rest.len() > 0 {
                assert(rest.last() == s.last());
                if s.last() != '\n' {
                    assert(raw + seq!['\n'] + rest.push('\n') =~= s.push('\n'));
                }
            } else {
                assert(s.last() == s[k as int]);
                assert(lines(rest) =~= Seq::<Seq<char>>::empty());
            }
        }
    }
}

} // verus!
