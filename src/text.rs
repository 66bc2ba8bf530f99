use vstd::prelude::*;
use vstd::std_specs::iter::IteratorSpec;

verus! {

broadcast use vstd::string::group_string_axioms;

/// What `str::to_lowercase` gives for a text.
pub uninterp spec fn lower_of(s: Seq<char>) -> Seq<char>;

/// Relies on `str::to_lowercase`: the result depends on the characters alone,
/// and the empty text stays empty.
#[verifier::external_body]
pub(crate) fn lowercase(s: &str) -> (r: String)
    ensures
        r@ == lower_of(s@),
        s@.len() == 0 ==> r@.len() == 0,
{
    s.to_lowercase()
}

/// Whether two texts are equal.
pub fn str_eq(a: &str, b: &str) -> (r: bool)
    ensures
        r == (a@ == b@),
{
    String::from_str(a) == String::from_str(b)
}

/// The characters of Unicode's White_Space property.
pub open spec fn is_white_space(c: char) -> bool {
    ('\u{9}' <= c <= '\u{d}') || c == ' ' || c == '\u{85}' || c == '\u{a0}' || c == '\u{1680}'
        || ('\u{2000}' <= c <= '\u{200a}') || c == '\u{2028}' || c == '\u{2029}'
        || c == '\u{202f}' || c == '\u{205f}' || c == '\u{3000}'
}

/// Whether `c` has Unicode's White_Space property.
pub fn white_space(c: char) -> (r: bool)
    ensures
        r == is_white_space(c),
{
    ('\u{9}' <= c && c <= '\u{d}') || c == ' ' || c == '\u{85}' || c == '\u{a0}' || c == '\u{1680}'
        || ('\u{2000}' <= c && c <= '\u{200a}') || c == '\u{2028}' || c == '\u{2029}'
        || c == '\u{202f}' || c == '\u{205f}' || c == '\u{3000}'
}

/// The text before the first line feed, or the whole text if it has none.
pub open spec fn first_line(s: Seq<char>) -> Seq<char>
    decreases s.len(),
{
    if s.len() == 0 {
        s
    } else if s[0] == '\n' {
        Seq::empty()
    } else {
        seq![s[0]] + first_line(s.drop_first())
    }
}

/// The text without its leading white space.
pub open spec fn trim_start(s: Seq<char>) -> Seq<char>
    decreases s.len(),
{
    if s.len() > 0 && is_white_space(s[0]) {
        trim_start(s.drop_first())
    } else {
        s
    }
}

/// The text without its trailing white space.
pub open spec fn trim_end(s: Seq<char>) -> Seq<char>
    decreases s.len(),
{
    if s.len() > 0 && is_white_space(s.last()) {
        trim_end(s.drop_last())
    } else {
        s
    }
}

/// The text without leading and trailing white space.
pub open spec fn trim(s: Seq<char>) -> Seq<char> {
    trim_end(trim_start(s))
}

/// The first line of a text that starts with a piece free of line feeds
/// starts with that piece.
proof fn lemma_first_line_after(line: Seq<char>, rest: Seq<char>)
    requires
        !line.contains('\n'),
    ensures
        first_line(line + rest) == line + first_line(rest),
    decreases line.len(),
{
    if line.len() > 0 {
        assert((line + rest).drop_first() == line.drop_first() + rest);
        assert(!line.drop_first().contains('\n')) by {
            if line.drop_first().contains('\n') {
                let j = choose|j: int| 0 <= j < line.drop_first().len() && line.drop_first()[j] == '\n';
                assert(line[j + 1] == '\n');
            }
        }
        lemma_first_line_after(line.drop_first(), rest);
        assert(line[0] != '\n') by {
            if line[0] == '\n' {
                assert(line.contains('\n'));
            }
        }
        assert(line == seq![line[0]] + line.drop_first());
    } else {
        assert(line + rest == rest);
    }
}

/// The characters of the first line of `s`.
pub fn first_line_chars(s: &str) -> (r: Vec<char>)
    ensures
        r@ == first_line(s@),
{
    let mut chars = s.chars();
    let mut line: Vec<char> = Vec::new();
    loop
        invariant
            chars.obeys_prophetic_iter_laws(),
            line@ + chars.remaining() == s@,
            !line@.contains('\n'),
            chars.decrease() is Some,
        decreases chars.decrease()->0,
    {
        let ghost before = chars.remaining();
        match chars.next() {
            Some(c) => {
                if c == '\n' {
                    proof {
                        lemma_first_line_after(line@, before);
                        assert(before == seq!['\n'] + before.drop_first());
                        assert(first_line(before) == Seq::<char>::empty());
                        assert(line@ + Seq::<char>::empty() == line@);
                    }
                    return line;
                }
                let ghost old_line = line@;
                line.push(c);
                proof {
                    assert(line@ + chars.remaining() =~= old_line + before);
                    assert(!line@.contains('\n')) by {
                        if line@.contains('\n') {
                            let j = choose|j: int| 0 <= j < line@.len() && line@[j] == '\n';
                            if j < old_line.len() {
                                assert(old_line[j] == '\n');
                                assert(old_line.contains('\n'));
                            }
                        }
                    }
                }
            },
            None => {
                proof {
                    lemma_first_line_after(line@, before);
                    assert(line@ + Seq::<char>::empty() == line@);
                }
                return line;
            },
        }
    }
}

/// The bounds of `line` without its leading and trailing white space.
pub fn trim_bounds(line: &Vec<char>) -> (r: (usize, usize))
    ensures
        r.0 <= r.1 <= line.len(),
        line@.subrange(r.0 as int, r.1 as int) == trim(line@),
{
    let n = line.len();
    let mut a: usize = 0;
    assert(line@.subrange(0, n as int) == line@);
    while a < n && white_space(line[a])
        invariant
            a <= n,
            n == line.len(),
            trim_start(line@.subrange(a as int, n as int)) == trim_start(line@),
        decreases n - a,
    {
        assert(line@.subrange(a as int, n as int).drop_first() == line@.subrange(a + 1, n as int));
        a = a + 1;
    }
    let mut b: usize = n;
    while b > a && white_space(line[b - 1])
        invariant
            a <= b <= n,
            n == line.len(),
            trim_end(line@.subrange(a as int, b as int)) == trim(line@),
        decreases b - a,
    {
        assert(line@.subrange(a as int, b as int).drop_last() == line@.subrange(a as int, b - 1));
        b = b - 1;
    }
    (a, b)
}

/// Whether the characters of `line` from `a` to `b` are those of `lit`.
pub fn slice_equals(line: &Vec<char>, a: usize, b: usize, lit: &str) -> (r: bool)
    requires
        a <= b <= line.len(),
    ensures
        r == (line@.subrange(a as int, b as int) == lit@),
{
    let n = lit.unicode_len();
    if b - a != n {
        return false;
    }
    let mut i: usize = 0;
    while i < n
        invariant
            i <= n,
            n == lit@.len(),
            b - a == n,
            a <= b <= line.len(),
            forall|j: int| 0 <= j < i ==> line@[a + j] == lit@[j],
        decreases n - i,
    {
        if line[a + i] != lit.get_char(i) {
            assert(line@.subrange(a as int, b as int)[i as int] != lit@[i as int]);
            return false;
        }
        i = i + 1;
    }
    assert(line@.subrange(a as int, b as int) =~= lit@);
    true
}

} // verus!
