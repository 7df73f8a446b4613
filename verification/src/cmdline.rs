//! Kernel command line parsing: given the command line's content, look up
//! values and items by key, read booleans, and collect the module
//! blacklist.  Reading `/proc/cmdline` itself is the caller's concern.

use crate::error::Error;
use crate::strutil::{
    find_char, spec_split_ws, spec_starts_with, split_whitespace, starts_with, str_chars,
    sub_chars, chars_to_string,
};
use vstd::prelude::*;
use vstd::string::StringExecFns;

verus! {

/// The first position of `c` in `t` at or after `i`, if any.
pub open spec fn spec_char_idx(t: Seq<char>, c: char, i: int) -> Option<int>
    decreases t.len() - i,
{
    if i < 0 || i >= t.len() {
        None
    } else if t[i] == c {
        Some(i)
    } else {
        spec_char_idx(t, c, i + 1)
    }
}

/// A token split at its first `=`, if it has one.
pub open spec fn spec_split_once_eq(t: Seq<char>) -> Option<(Seq<char>, Seq<char>)> {
    match spec_char_idx(t, '=', 0) {
        Some(i) => Some((t.subrange(0, i), t.subrange(i + 1, t.len() as int))),
        None => None,
    }
}

pub proof fn lemma_char_idx_found(t: Seq<char>, c: char, j: int, i: int)
    requires
        0 <= j <= i < t.len(),
        t[i] == c,
        forall|p: int| j <= p < i ==> t[p] != c,
    ensures
        spec_char_idx(t, c, j) == Some(i),
    decreases i - j,
{
    if j < i {
        lemma_char_idx_found(t, c, j + 1, i);
    }
}

pub proof fn lemma_char_idx_absent(t: Seq<char>, c: char, j: int)
    requires
        0 <= j,
        forall|p: int| j <= p < t.len() ==> t[p] != c,
    ensures
        spec_char_idx(t, c, j) is None,
    decreases t.len() - j,
{
    if j < t.len() {
        lemma_char_idx_absent(t, c, j + 1);
    }
}

/// The value of the first `key=value` token whose key part is `key`.
pub open spec fn spec_cmdline_value(tokens: Seq<Seq<char>>, key: Seq<char>, k: int) -> Option<
    Seq<char>,
>
    decreases tokens.len() - k,
{
    if k < 0 || k >= tokens.len() {
        None
    } else {
        match spec_split_once_eq(tokens[k]) {
            Some(kv) => if kv.0 == key {
                Some(kv.1)
            } else {
                spec_cmdline_value(tokens, key, k + 1)
            },
            None => spec_cmdline_value(tokens, key, k + 1),
        }
    }
}

/// Split a token at its first `=`, exactly as the specification says.
fn split_once_eq(tok: &String) -> (r: Option<(Vec<char>, Vec<char>)>)
    ensures
        match r {
            Some(kv) => spec_split_once_eq(tok@) == Some((kv.0@, kv.1@)),
            None => spec_split_once_eq(tok@) is None,
        },
{
    let tv = str_chars(tok.as_str());
    match find_char(&tv, '=') {
        Some(i) => {
            proof {
                lemma_char_idx_found(tok@, '=', 0, i as int);
            }
            let k = sub_chars(&tv, 0, i);
            proof {
                vstd::std_specs::vec::axiom_spec_len(&tv);
                assert(i + 1 <= tv@.len());
            }
            let nxt: usize = i + 1;
            let v = sub_chars(&tv, nxt, tv.len());
            Some((k, v))
        }
        None => {
            proof {
                lemma_char_idx_absent(tok@, '=', 0);
            }
            None
        }
    }
}

/// The value the command line gives for `key`: the value part of the first
/// `key=value` token, if any.
pub fn cmdline_get_value(content: &str, key: &str) -> (r: Option<String>)
    ensures
        match r {
            Some(v) => spec_cmdline_value(spec_split_ws(content@), key@, 0) == Some(v@),
            None => spec_cmdline_value(spec_split_ws(content@), key@, 0) is None,
        },
{
    let tokens = split_whitespace(content);
    let keyv = str_chars(key);
    let mut k: usize = 0;
    let n = tokens.len();
    while k < n
        invariant
            n == tokens@.len(),
            tokens.deep_view() == spec_split_ws(content@),
            keyv@ == key@,
            k <= n,
            spec_cmdline_value(tokens.deep_view(), key@, 0) == spec_cmdline_value(
                tokens.deep_view(),
                key@,
                k as int,
            ),
        decreases n - k,
    {
        proof {
            assert(tokens.deep_view()[k as int] == tokens@[k as int]@);
        }
        match split_once_eq(&tokens[k]) {
            Some(kv) => {
                if crate::strutil::chars_equal(&kv.0, &keyv) {
                    return Some(chars_to_string(&kv.1));
                }
            }
            None => {
            }
        }
        k = k + 1;
    }
    None
}

/// The first token that names `item`: either `item` itself or one that
/// begins with `item=`.
pub open spec fn spec_cmdline_item(
    tokens: Seq<Seq<char>>,
    item: Seq<char>,
    k: int,
) -> Option<Seq<char>>
    decreases tokens.len() - k,
{
    if k < 0 || k >= tokens.len() {
        None
    } else if spec_starts_with(tokens[k], item + "="@) || tokens[k] == item {
        Some(tokens[k])
    } else {
        spec_cmdline_item(tokens, item, k + 1)
    }
}

/// The command line token that names `item`, whole: `crashkernel` finds
/// `crashkernel=512M`, `ro` finds `ro`, and an absent item finds nothing.
pub fn cmdline_get_item(content: &str, item: &str) -> (r: Option<String>)
    ensures
        match r {
            Some(v) => spec_cmdline_item(spec_split_ws(content@), item@, 0) == Some(v@),
            None => spec_cmdline_item(spec_split_ws(content@), item@, 0) is None,
        },
{
    let tokens = split_whitespace(content);
    let pair_item = item.to_owned().concat("=");
    let itemv = item.to_owned();
    let mut k: usize = 0;
    let n = tokens.len();
    while k < n
        invariant
            n == tokens@.len(),
            tokens.deep_view() == spec_split_ws(content@),
            pair_item@ == item@ + "="@,
            itemv@ == item@,
            k <= n,
            spec_cmdline_item(tokens.deep_view(), item@, 0) == spec_cmdline_item(
                tokens.deep_view(),
                item@,
                k as int,
            ),
        decreases n - k,
    {
        proof {
            assert(tokens.deep_view()[k as int] == tokens@[k as int]@);
        }
        let tok = &tokens[k];
        if starts_with(tok.as_str(), pair_item.as_str()) || *tok == itemv {
            return Some(tok.clone());
        }
        k = k + 1;
    }
    None
}

/// What a configuration boolean word means, if anything.
pub open spec fn spec_parse_boolean(s: Seq<char>) -> Option<bool> {
    if s == "1"@ || s == "yes"@ || s == "y"@ || s == "true"@ || s == "t"@ || s == "on"@ {
        Some(true)
    } else if s == "0"@ || s == "no"@ || s == "n"@ || s == "false"@ || s == "f"@ || s == "off"@ {
        Some(false)
    } else {
        None
    }
}

/// Parse a configuration boolean word.
pub fn parse_boolean(s: &str) -> (r: Result<bool, Error>)
    ensures
        match spec_parse_boolean(s@) {
            Some(b) => r == Ok::<bool, Error>(b),
            None => r is Err,
        },
{
    let v = s.to_owned();
    if v == "1".to_owned() || v == "yes".to_owned() || v == "y".to_owned() || v
        == "true".to_owned() || v == "t".to_owned() || v == "on".to_owned() {
        Ok(true)
    } else if v == "0".to_owned() || v == "no".to_owned() || v == "n".to_owned() || v
        == "false".to_owned() || v == "f".to_owned() || v == "off".to_owned() {
        Ok(false)
    } else {
        Err(Error::Other)
    }
}

/// The boolean the command line gives for `key`: false without the key,
/// else its value read as a boolean word, and an error for anything else.
pub fn proc_cmdline_get_bool(content: &str, key: &str) -> (r: Result<bool, Error>)
    ensures
        match spec_cmdline_value(spec_split_ws(content@), key@, 0) {
            None => r == Ok::<bool, Error>(false),
            Some(v) => match spec_parse_boolean(v) {
                Some(b) => r == Ok::<bool, Error>(b),
                None => r is Err,
            },
        },
{
    match cmdline_get_value(content, key) {
        None => Ok(false),
        Some(v) => parse_boolean(v.as_str()),
    }
}

/// The pieces of `s` split at every `c`, empty pieces kept, from `i` on.
pub open spec fn pieces_from(s: Seq<char>, c: char, i: int, cur: Seq<char>, out: Seq<Seq<char>>) -> Seq<
    Seq<char>,
>
    decreases s.len() - i,
{
    if i < 0 || i >= s.len() {
        out.push(cur)
    } else if s[i] == c {
        pieces_from(s, c, i + 1, Seq::empty(), out.push(cur))
    } else {
        pieces_from(s, c, i + 1, cur.push(s[i]), out)
    }
}

/// The pieces of `s` split at every `c`; there is always at least one.
pub open spec fn spec_split_at(s: Seq<char>, c: char) -> Seq<Seq<char>> {
    pieces_from(s, c, 0, Seq::empty(), Seq::empty())
}

/// Split a string at every `c`, keeping empty pieces.
pub fn split_at_char(s: &str, c: char) -> (r: Vec<String>)
    ensures
        r.deep_view() == spec_split_at(s@, c),
{
    let v = str_chars(s);
    let mut out: Vec<String> = Vec::new();
    let mut cur: Vec<char> = Vec::new();
    let mut i: usize = 0;
    proof {
        assert(out.deep_view() =~= Seq::<Seq<char>>::empty());
        assert(cur@ =~= Seq::<char>::empty());
    }
    while i < v.len()
        invariant
            v@ == s@,
            i <= v@.len(),
            pieces_from(s@, c, i as int, cur@, out.deep_view()) == spec_split_at(s@, c),
        decreases v.len() - i,
    {
        let ghost pre_cur = cur@;
        let ghost pre_out = out.deep_view();
        let ch = v[i];
        if ch == c {
            let word = chars_to_string(&cur);
            out.push(word);
            cur = Vec::new();
            proof {
                assert forall|j: int| 0 <= j < pre_out.len() + 1 implies out.deep_view()[j]
                    == pre_out.push(pre_cur)[j] by {
                }
                assert(out.deep_view() =~= pre_out.push(pre_cur));
                assert(cur@ =~= Seq::<char>::empty());
            }
        } else {
            cur.push(ch);
        }
        i = i + 1;
    }
    let word = chars_to_string(&cur);
    let ghost pre_out = out.deep_view();
    let ghost pre_cur = cur@;
    out.push(word);
    proof {
        assert forall|j: int| 0 <= j < pre_out.len() + 1 implies out.deep_view()[j]
            == pre_out.push(pre_cur)[j] by {
        }
        assert(out.deep_view() =~= pre_out.push(pre_cur));
    }
    out
}

/// The blacklist after the first `k` comma-separated names were taken in,
/// each name once.
pub open spec fn blacklist_after(data: Seq<Seq<char>>, names: Seq<Seq<char>>, k: int) -> Seq<
    Seq<char>,
>
    decreases k,
{
    if k <= 0 {
        data
    } else {
        let prev = blacklist_after(data, names, k - 1);
        if prev.contains(names[k - 1]) {
            prev
        } else {
            prev.push(names[k - 1])
        }
    }
}

/// Take one command line item into the module blacklist: only the
/// `module_blacklist` key contributes, its non-empty value split at
/// commas, each module once.
pub fn parse_proc_cmdline_item(key: &str, value: &str, data: &mut Vec<String>)
    ensures
        key@ == "module_blacklist"@ && value@.len() > 0 ==> final(data).deep_view()
            == blacklist_after(
            old(data).deep_view(),
            spec_split_at(value@, ','),
            spec_split_at(value@, ',').len() as int,
        ),
        !(key@ == "module_blacklist"@ && value@.len() > 0) ==> *final(data) == *old(data),
{
    if !(key.to_owned() == "module_blacklist".to_owned()) {
        return ;
    }
    let probe = str_chars(value);
    if probe.len() == 0 {
        return ;
    }
    let names = split_at_char(value, ',');
    let ghost names_view = names.deep_view();
    let ghost data0 = data.deep_view();
    let mut k: usize = 0;
    let n = names.len();
    while k < n
        invariant
            n == names@.len(),
            names.deep_view() == names_view,
            k <= n,
            data.deep_view() == blacklist_after(data0, names_view, k as int),
        decreases n - k,
    {
        let name = &names[k];
        proof {
            assert(names.deep_view()[k as int] == names@[k as int]@);
        }
        let mut present = false;
        let mut j: usize = 0;
        while j < data.len()
            invariant
                k < names@.len(),
                names.deep_view() == names_view,
                name@ == names_view[k as int],
                j <= data@.len(),
                present == (exists|p: int| 0 <= p < j && data@[p]@ == names_view[k as int]),
            decreases data.len() - j,
        {
            if data[j] == *name {
                present = true;
            }
            j = j + 1;
        }
        proof {
            let dv = data.deep_view();
            if present {
                let p = choose|p: int| 0 <= p < data@.len() && data@[p]@ == names_view[k as int];
                assert(dv[p] == names_view[k as int]);
                assert(dv.contains(names_view[k as int]));
            } else {
                if dv.contains(names_view[k as int]) {
                    let p = choose|p: int| 0 <= p < dv.len() && dv[p] == names_view[k as int];
                    assert(data@[p]@ == names_view[k as int]);
                    assert(false);
                }
            }
        }
        if !present {
            let ghost dv0 = data.deep_view();
            data.push(name.clone());
            proof {
                assert(data.deep_view() =~= dv0.push(names_view[k as int]));
            }
        }
        k = k + 1;
    }
}

/// What the blacklist holds after every `key=value` token of the command
/// line was taken in, splitting each token at its first `=` and at the
/// second piece of every `=`-chain, exactly as one pass over the tokens.
pub open spec fn spec_blacklist_pass(tokens: Seq<Seq<char>>, data: Seq<Seq<char>>, k: int) -> Seq<
    Seq<char>,
>
    decreases k,
{
    if k <= 0 {
        data
    } else {
        let prev = spec_blacklist_pass(tokens, data, k - 1);
        let pieces = spec_split_at(tokens[k - 1], '=');
        if pieces.len() >= 2 && pieces[0] == "module_blacklist"@ && pieces[1].len() > 0 {
            blacklist_after(prev, spec_split_at(pieces[1], ','), spec_split_at(
                pieces[1],
                ',',
            ).len() as int)
        } else {
            prev
        }
    }
}

/// One pass over the whole command line: each space-separated token is
/// split at `=`, and the key and the piece right after the first `=` are
/// handed to the blacklist collector.
pub fn proc_cmdline_parse(content: &str, data: &mut Vec<String>)
    ensures
        final(data).deep_view() == spec_blacklist_pass(
            spec_split_at(content@, ' '),
            old(data).deep_view(),
            spec_split_at(content@, ' ').len() as int,
        ),
{
    let tokens = split_at_char(content, ' ');
    let ghost toks = tokens.deep_view();
    let ghost data0 = data.deep_view();
    let mut k: usize = 0;
    let n = tokens.len();
    while k < n
        invariant
            n == tokens@.len(),
            tokens.deep_view() == toks,
            k <= n,
            data.deep_view() == spec_blacklist_pass(toks, data0, k as int),
        decreases n - k,
    {
        proof {
            assert(tokens.deep_view()[k as int] == tokens@[k as int]@);
        }
        let pieces = split_at_char(tokens[k].as_str(), '=');
        if pieces.len() >= 2 {
            proof {
                assert(pieces.deep_view()[0] == pieces@[0]@);
                assert(pieces.deep_view()[1] == pieces@[1]@);
            }
            let key = &pieces[0];
            let value = &pieces[1];
            parse_proc_cmdline_item(key.as_str(), value.as_str(), data);
        }
        k = k + 1;
    }
}

} // verus!
