//! Character-level string helpers: the library reasons about strings as
//! sequences of characters, so text is taken apart into `Vec<char>`, worked
//! on there, and put back together.

use vstd::prelude::*;
use vstd::std_specs::iter::IteratorSpec;

verus! {

/// Relies on String::push: appends exactly the one character.
#[verifier::external_body]
pub fn push_char(s: &mut String, c: char)
    ensures
        final(s)@ == old(s)@.push(c),
{
    s.push(c);
}

/// The characters of a string, in order.
pub fn str_chars(s: &str) -> (r: Vec<char>)
    ensures
        r@ == s@,
{
    broadcast use vstd::string::axiom_spec_iter;
    broadcast use vstd::string::next_postcondition;
    broadcast use vstd::std_specs::iter::group_iter_axioms;

    let mut it = s.chars();
    let mut out: Vec<char> = Vec::new();
    loop
        invariant
            it.obeys_prophetic_iter_laws(),
            it.decrease() is Some,
            out@ + it.remaining() == s@,
        ensures
            out@ == s@,
        decreases it.decrease()->0,
    {
        match it.next() {
            Some(c) => {
                out.push(c);
            }
            None => {
                proof {
                    assert(out@ =~= s@);
                }
                break ;
            }
        }
    }
    out
}

/// The string a character sequence spells.
pub fn chars_to_string(v: &Vec<char>) -> (r: String)
    ensures
        r@ == v@,
{
    let mut s = String::new();
    let mut i: usize = 0;
    while i < v.len()
        invariant
            i <= v.len(),
            s@ =~= v@.subrange(0, i as int),
        decreases v.len() - i,
    {
        push_char(&mut s, v[i]);
        proof {
            assert(v@.subrange(0, i as int).push(v@[i as int]) =~= v@.subrange(0, i + 1));
        }
        i = i + 1;
    }
    proof {
        assert(v@.subrange(0, v@.len() as int) =~= v@);
    }
    s
}

/// Whether `s` ends with `suffix`.
pub open spec fn spec_ends_with(s: Seq<char>, suffix: Seq<char>) -> bool {
    s.len() >= suffix.len() && s.subrange(s.len() - suffix.len(), s.len() as int) == suffix
}

/// Whether `s` starts with `prefix`.
pub open spec fn spec_starts_with(s: Seq<char>, prefix: Seq<char>) -> bool {
    s.len() >= prefix.len() && s.subrange(0, prefix.len() as int) == prefix
}

/// Whether the string ends with the suffix.
pub fn ends_with(s: &str, suffix: &str) -> (r: bool)
    ensures
        r == spec_ends_with(s@, suffix@),
{
    let sv = str_chars(s);
    let tv = str_chars(suffix);
    if sv.len() < tv.len() {
        return false;
    }
    let off: usize = sv.len() - tv.len();
    let mut i: usize = 0;
    while i < tv.len()
        invariant
            sv@ == s@,
            tv@ == suffix@,
            sv@.len() >= tv@.len(),
            off == sv@.len() - tv@.len(),
            i <= tv@.len(),
            forall|j: int| 0 <= j < i ==> sv@[off + j] == tv@[j],
        decreases tv.len() - i,
    {
        proof {
            vstd::std_specs::vec::axiom_spec_len(&sv);
            assert(off + i < sv@.len());
        }
        let k: usize = off + i;
        if sv[k] != tv[i] {
            proof {
                assert(s@.subrange(s@.len() - suffix@.len(), s@.len() as int)[i as int] == s@[k as int]);
            }
            return false;
        }
        i = i + 1;
    }
    proof {
        assert(s@.subrange(s@.len() - suffix@.len(), s@.len() as int) =~= suffix@);
    }
    true
}

/// Whether the string starts with the prefix.
pub fn starts_with(s: &str, prefix: &str) -> (r: bool)
    ensures
        r == spec_starts_with(s@, prefix@),
{
    let sv = str_chars(s);
    let tv = str_chars(prefix);
    starts_with_chars(&sv, &tv)
}

/// Whether the character sequence starts with the prefix.
pub fn starts_with_chars(sv: &Vec<char>, tv: &Vec<char>) -> (r: bool)
    ensures
        r == spec_starts_with(sv@, tv@),
{
    if sv.len() < tv.len() {
        return false;
    }
    let mut i: usize = 0;
    while i < tv.len()
        invariant
            sv@.len() >= tv@.len(),
            i <= tv@.len(),
            forall|j: int| 0 <= j < i ==> sv@[j] == tv@[j],
        decreases tv.len() - i,
    {
        if sv[i] != tv[i] {
            proof {
                assert(sv@.subrange(0, tv@.len() as int)[i as int] == sv@[i as int]);
            }
            return false;
        }
        i = i + 1;
    }
    proof {
        assert(sv@.subrange(0, tv@.len() as int) =~= tv@);
    }
    true
}

/// The first index where `c` occurs in `v`, if any.
pub fn find_char(v: &Vec<char>, c: char) -> (r: Option<usize>)
    ensures
        match r {
            Some(i) => i < v@.len() && v@[i as int] == c && forall|j: int| 0 <= j < i ==> v@[j] != c,
            None => forall|j: int| 0 <= j < v@.len() ==> v@[j] != c,
        },
{
    let mut i: usize = 0;
    while i < v.len()
        invariant
            i <= v@.len(),
            forall|j: int| 0 <= j < i ==> v@[j] != c,
        decreases v.len() - i,
    {
        if v[i] == c {
            return Some(i);
        }
        i = i + 1;
    }
    None
}

/// Whether two character sequences are the same.
pub fn chars_equal(a: &Vec<char>, b: &Vec<char>) -> (r: bool)
    ensures
        r == (a@ == b@),
{
    if a.len() != b.len() {
        return false;
    }
    let mut i: usize = 0;
    while i < a.len()
        invariant
            a@.len() == b@.len(),
            i <= a@.len(),
            forall|j: int| 0 <= j < i ==> a@[j] == b@[j],
        decreases a.len() - i,
    {
        if a[i] != b[i] {
            return false;
        }
        i = i + 1;
    }
    proof {
        assert(a@ =~= b@);
    }
    true
}

/// A copy of `v[from .. to]`.
pub fn sub_chars(v: &Vec<char>, from: usize, to: usize) -> (r: Vec<char>)
    requires
        from <= to <= v@.len(),
    ensures
        r@ == v@.subrange(from as int, to as int),
{
    let mut r: Vec<char> = Vec::new();
    let mut i: usize = from;
    while i < to
        invariant
            from <= i <= to <= v@.len(),
            r@ =~= v@.subrange(from as int, i as int),
        decreases to - i,
    {
        r.push(v[i]);
        proof {
            assert(v@.subrange(from as int, i as int).push(v@[i as int]) =~= v@.subrange(
                from as int,
                i + 1,
            ));
        }
        i = i + 1;
    }
    r
}

/// Whether `c` is one of the whitespace characters the splitters honour:
/// the four ASCII ones.  Kernel command lines and preset files are ASCII
/// text; other Unicode spacing is deliberately not treated as a separator.
pub open spec fn is_space(c: char) -> bool {
    c == ' ' || c == '\t' || c == '\n' || c == '\r'
}

/// The whitespace-separated tokens of `s` from position `i` on, given the
/// token read so far and the tokens already complete.
pub open spec fn tokens_from(s: Seq<char>, i: int, cur: Seq<char>, out: Seq<Seq<char>>) -> Seq<
    Seq<char>,
>
    decreases s.len() - i,
{
    if i < 0 || i >= s.len() {
        if cur.len() > 0 {
            out.push(cur)
        } else {
            out
        }
    } else if is_space(s[i]) {
        tokens_from(
            s,
            i + 1,
            Seq::empty(),
            if cur.len() > 0 {
                out.push(cur)
            } else {
                out
            },
        )
    } else {
        tokens_from(s, i + 1, cur.push(s[i]), out)
    }
}

/// The whitespace-separated tokens of `s`.
pub open spec fn spec_split_ws(s: Seq<char>) -> Seq<Seq<char>> {
    tokens_from(s, 0, Seq::empty(), Seq::empty())
}

/// Split a string at runs of ASCII whitespace, dropping empty pieces.
pub fn split_whitespace(s: &str) -> (r: Vec<String>)
    ensures
        r.deep_view() == spec_split_ws(s@),
{
    let v = str_chars(s);
    let mut out: Vec<String> = Vec::new();
    let mut cur: Vec<char> = Vec::new();
    let mut i: usize = 0;
    proof {
        assert(out.deep_view() =~= Seq::<Seq<char>>::empty());
        assert(cur@ =~= Seq::<char>::empty());
    }
    while i < v.len()
        invariant
            v@ == s@,
            i <= v@.len(),
            tokens_from(s@, i as int, cur@, out.deep_view()) == spec_split_ws(s@),
        decreases v.len() - i,
    {
        let ghost pre_cur = cur@;
        let ghost pre_out = out.deep_view();
        let c = v[i];
        if c == ' ' || c == '\t' || c == '\n' || c == '\r' {
            if cur.len() > 0 {
                let word = chars_to_string(&cur);
                out.push(word);
                cur = Vec::new();
                proof {
                    assert forall|j: int| 0 <= j < pre_out.len() + 1 implies out.deep_view()[j]
                        == pre_out.push(pre_cur)[j] by {
                    }
                    assert(out.deep_view() =~= pre_out.push(pre_cur));
                    assert(cur@ =~= Seq::<char>::empty());
                }
            } else {
                proof {
                    assert(pre_cur =~= Seq::<char>::empty());
                }
            }
        } else {
            cur.push(c);
        }
        i = i + 1;
    }
    if cur.len() > 0 {
        let word = chars_to_string(&cur);
        let ghost pre_out = out.deep_view();
        let ghost pre_cur = cur@;
        out.push(word);
        proof {
            assert forall|j: int| 0 <= j < pre_out.len() + 1 implies out.deep_view()[j]
                == pre_out.push(pre_cur)[j] by {
            }
            assert(out.deep_view() =~= pre_out.push(pre_cur));
        }
    }
    out
}

/// The first character of `s` that is not ASCII whitespace, if any.
pub open spec fn spec_first_nonspace(s: Seq<char>) -> Option<char>
    decreases s.len(),
{
    if s.len() == 0 {
        None
    } else if is_space(s[0]) {
        spec_first_nonspace(s.drop_first())
    } else {
        Some(s[0])
    }
}

/// The first character that is not whitespace, if any.
pub fn first_nonspace(s: &str) -> (r: Option<char>)
    ensures
        r == spec_first_nonspace(s@),
{
    let v = str_chars(s);
    let mut i: usize = 0;
    proof {
        assert(s@.subrange(0, s@.len() as int) =~= s@);
    }
    while i < v.len()
        invariant
            v@ == s@,
            i <= v@.len(),
            spec_first_nonspace(s@.subrange(i as int, s@.len() as int)) == spec_first_nonspace(
                s@,
            ),
        decreases v.len() - i,
    {
        let c = v[i];
        if !(c == ' ' || c == '\t' || c == '\n' || c == '\r') {
            proof {
                assert(s@.subrange(i as int, s@.len() as int)[0] == s@[i as int]);
            }
            return Some(c);
        }
        proof {
            assert(s@.subrange(i as int, s@.len() as int).drop_first() =~= s@.subrange(
                i + 1,
                s@.len() as int,
            ));
            assert(s@.subrange(i as int, s@.len() as int)[0] == s@[i as int]);
        }
        i = i + 1;
    }
    proof {
        assert(s@.subrange(s@.len() as int, s@.len() as int).len() == 0);
    }
    None
}

} // verus!
