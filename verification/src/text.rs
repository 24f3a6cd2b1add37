//! Text as sequences of characters: white space, trimming and joining.

use vstd::prelude::*;
use vstd::std_specs::iter::IteratorSpec;

verus! {

broadcast use vstd::string::group_string_axioms;

/// Characters that carry the Unicode `White_Space` property.
pub open spec fn is_white_space(c: char) -> bool {
    let u = c as u32;
    ||| 0x09 <= u <= 0x0D
    ||| u == 0x20
    ||| u == 0x85
    ||| u == 0xA0
    ||| u == 0x1680
    ||| 0x2000 <= u <= 0x200A
    ||| u == 0x2028
    ||| u == 0x2029
    ||| u == 0x202F
    ||| u == 0x205F
    ||| u == 0x3000
}

/// Every character of `s` is white space.
pub open spec fn all_white(s: Seq<char>) -> bool {
    forall|i: int| 0 <= i < s.len() ==> is_white_space(#[trigger] s[i])
}

/// Number of white-space characters at the front of `s`.
pub open spec fn leading_white(s: Seq<char>) -> nat
    decreases s.len(),
{
    if s.len() > 0 && is_white_space(s[0]) {
        1 + leading_white(s.drop_first())
    } else {
        0
    }
}

/// Number of white-space characters at the back of `s`.
pub open spec fn trailing_white(s: Seq<char>) -> nat
    decreases s.len(),
{
    if s.len() > 0 && is_white_space(s.last()) {
        1 + trailing_white(s.drop_last())
    } else {
        0
    }
}

/// `s` without its leading and trailing white space.
pub open spec fn trimmed(s: Seq<char>) -> Seq<char> {
    let front = s.skip(leading_white(s) as int);
    front.take(front.len() - trailing_white(front))
}

/// The pieces of `parts` in order, with `sep` between neighbours.
pub open spec fn joined(parts: Seq<Seq<char>>, sep: Seq<char>) -> Seq<char>
    decreases parts.len(),
{
    if parts.len() == 0 {
        Seq::empty()
    } else if parts.len() == 1 {
        parts[0]
    } else {
        joined(parts.drop_last(), sep) + sep + parts.last()
    }
}

/// `leading_white(s)` is the one position that ends a run of white space
/// starting at the front.
pub proof fn lemma_leading_white(s: Seq<char>, a: int)
    requires
        0 <= a <= s.len(),
        all_white(s.take(a)),
        a < s.len() ==> !is_white_space(s[a]),
    ensures
        leading_white(s) == a,
    decreases s.len(),
{
    if a > 0 {
        assert(s.take(a)[0] == s[0]);
        let rest = s.drop_first();
        assert forall|i: int| 0 <= i < rest.take(a - 1).len() implies is_white_space(
            #[trigger] rest.take(a - 1)[i],
        ) by {
            assert(s.take(a)[i + 1] == rest.take(a - 1)[i]);
        }
        lemma_leading_white(rest, a - 1);
    }
}

/// `trailing_white(s)` is the one length of a run of white space that ends
/// at the back.
pub proof fn lemma_trailing_white(s: Seq<char>, b: int)
    requires
        0 <= b <= s.len(),
        all_white(s.skip(b)),
        b > 0 ==> !is_white_space(s[b - 1]),
    ensures
        trailing_white(s) == s.len() - b,
    decreases s.len(),
{
    if b < s.len() {
        assert(s.skip(b)[s.len() - 1 - b] == s.last());
        let rest = s.drop_last();
        assert forall|i: int| 0 <= i < rest.skip(b).len() implies is_white_space(
            #[trigger] rest.skip(b)[i],
        ) by {
            assert(s.skip(b)[i] == rest.skip(b)[i]);
        }
        lemma_trailing_white(rest, b);
    }
}

/// The run counted by `leading_white` is white, and the character after it is not.
pub proof fn lemma_leading_white_run(s: Seq<char>)
    ensures
        leading_white(s) <= s.len(),
        all_white(s.take(leading_white(s) as int)),
        leading_white(s) < s.len() ==> !is_white_space(s[leading_white(s) as int]),
    decreases s.len(),
{
    if s.len() > 0 && is_white_space(s[0]) {
        let rest = s.drop_first();
        lemma_leading_white_run(rest);
        let a = leading_white(s) as int;
        assert forall|i: int| 0 <= i < s.take(a).len() implies is_white_space(
            #[trigger] s.take(a)[i],
        ) by {
            if i > 0 {
                assert(rest.take(a - 1)[i - 1] == s.take(a)[i]);
            }
        }
    }
}

/// The run counted by `trailing_white` is white, and the character before it is not.
pub proof fn lemma_trailing_white_run(s: Seq<char>)
    ensures
        trailing_white(s) <= s.len(),
        all_white(s.skip(s.len() - trailing_white(s))),
        trailing_white(s) < s.len() ==> !is_white_space(s[s.len() - trailing_white(s) - 1]),
    decreases s.len(),
{
    if s.len() > 0 && is_white_space(s.last()) {
        let rest = s.drop_last();
        lemma_trailing_white_run(rest);
        let b = s.len() - trailing_white(s);
        assert forall|i: int| 0 <= i < s.skip(b).len() implies is_white_space(
            #[trigger] s.skip(b)[i],
        ) by {
            if i < s.skip(b).len() - 1 {
                assert(rest.skip(b)[i] == s.skip(b)[i]);
            }
        }
    }
}

/// Trimming keeps one contiguous piece of the text: what stands before and
/// after it is white space, and the piece neither begins nor ends with white
/// space.
pub proof fn lemma_trimmed_frame(s: Seq<char>)
    ensures
        leading_white(s) + trimmed(s).len() <= s.len(),
        trimmed(s) == s.subrange(
            leading_white(s) as int,
            (leading_white(s) + trimmed(s).len()) as int,
        ),
        all_white(s.take(leading_white(s) as int)),
        all_white(s.skip((leading_white(s) + trimmed(s).len()) as int)),
        trimmed(s).len() > 0 ==> !is_white_space(trimmed(s).first()) && !is_white_space(
            trimmed(s).last(),
        ),
{
    let a = leading_white(s) as int;
    lemma_leading_white_run(s);
    let front = s.skip(a);
    lemma_trailing_white_run(front);
    let keep = front.len() - trailing_white(front);
    assert(s.skip(a + keep) =~= front.skip(keep));
}

/// Trimming gives the one piece of the text that has only white space
/// before and after it and neither begins nor ends with white space.
pub proof fn lemma_trimmed_is(s: Seq<char>, a: int, b: int)
    requires
        0 <= a <= b <= s.len(),
        all_white(s.take(a)),
        all_white(s.skip(b)),
        a < b ==> !is_white_space(s[a]) && !is_white_space(s[b - 1]),
    ensures
        trimmed(s) == s.subrange(a, b),
{
    if a < b {
        lemma_leading_white(s, a);
        let front = s.skip(a);
        assert(front.skip(b - a) =~= s.skip(b));
        lemma_trailing_white(front, b - a);
    } else {
        assert forall|i: int| 0 <= i < s.len() implies is_white_space(#[trigger] s[i]) by {
            if i < a {
                assert(s.take(a)[i] == s[i]);
            } else {
                assert(s.skip(b)[i - b] == s[i]);
            }
        }
        lemma_leading_white(s, s.len() as int);
    }
}

/// Text that neither begins nor ends with white space is its own trimming.
pub proof fn lemma_trimmed_fixed(s: Seq<char>)
    requires
        s.len() > 0 ==> !is_white_space(s.first()) && !is_white_space(s.last()),
    ensures
        trimmed(s) == s,
{
    lemma_trimmed_is(s, 0, s.len() as int);
}

/// Trimming twice is trimming once.
pub proof fn lemma_trimmed_idempotent(s: Seq<char>)
    ensures
        trimmed(trimmed(s)) == trimmed(s),
{
    lemma_trimmed_frame(s);
    lemma_trimmed_fixed(trimmed(s));
}

/// Decides whether `c` is white space.
pub fn white_space(c: char) -> (r: bool)
    ensures
        r == is_white_space(c),
{
    let u: u32 = c as u32;
    (0x09 <= u && u <= 0x0D) || u == 0x20 || u == 0x85 || u == 0xA0 || u == 0x1680 || (0x2000 <= u
        && u <= 0x200A) || u == 0x2028 || u == 0x2029 || u == 0x202F || u == 0x205F || u == 0x3000
}

/// Returns `s` without its leading and trailing white space.
pub fn trim(s: &str) -> (r: String)
    ensures
        r@ == trimmed(s@),
{
    let n: usize = s.unicode_len();
    let mut it = s.chars();
    let mut i: usize = 0;
    let mut start: usize = 0;
    let mut end: usize = 0;
    loop
        invariant
            it.obeys_prophetic_iter_laws(),
            n == s@.len(),
            i <= n,
            it.remaining() == s@.skip(i as int),
            start <= end <= i,
            end == 0 ==> start == 0 && all_white(s@.take(i as int)),
            end > 0 ==> start < end && !is_white_space(s@[start as int]) && !is_white_space(
                s@[end - 1],
            ) && all_white(s@.take(start as int)) && all_white(s@.subrange(end as int, i as int)),
        ensures
            i == n,
            start <= end <= n,
            end == 0 ==> start == 0 && all_white(s@),
            end > 0 ==> start < end && !is_white_space(s@[start as int]) && !is_white_space(
                s@[end - 1],
            ) && all_white(s@.take(start as int)) && all_white(s@.skip(end as int)),
        decreases n - i,
    {
        match it.next() {
            Some(c) => {
                let white = white_space(c);
                proof {
                    if white && end > 0 {
                        let seen = s@.subrange(end as int, i as int);
                        let grown = s@.subrange(end as int, i + 1);
                        assert forall|j: int| 0 <= j < grown.len() implies is_white_space(
                            #[trigger] grown[j],
                        ) by {
                            if j < seen.len() {
                                assert(seen[j] == grown[j]);
                            }
                        }
                    }
                }
                if !white {
                    if end == 0 {
                        start = i;
                    }
                    end = i + 1;
                }
                i = i + 1;
            },
            None => {
                proof {
                    assert(s@.take(n as int) =~= s@);
                }
                break ;
            },
        }
    }
    proof {
        lemma_trimmed_is(s@, start as int, end as int);
    }
    s.substring_char(start, end).to_owned()
}

/// Concatenates `parts`, putting `sep` between neighbours.
pub fn join(parts: &Vec<String>, sep: &str) -> (r: String)
    ensures
        r@ == joined(parts.deep_view(), sep@),
{
    let mut out = String::new();
    let mut i: usize = 0;
    while i < parts.len()
        invariant
            i <= parts.len(),
            out@ == joined(parts.deep_view().take(i as int), sep@),
        decreases parts.len() - i,
    {
        let ghost before = parts.deep_view().take(i as int);
        let ghost after = parts.deep_view().take(i + 1);
        proof {
            assert(after.drop_last() =~= before);
        }
        if i > 0 {
            out.append(sep);
        }
        out.append(parts[i].as_str());
        i = i + 1;
    }
    proof {
        assert(parts.deep_view().take(i as int) =~= parts.deep_view());
    }
    out
}

} // verus!
