use vstd::prelude::*;

verus! {

/// The characters with the Unicode `White_Space` property, as `char::is_whitespace` has them.
pub open spec fn is_ws(c: char) -> bool {
    let u = c as u32;
    u == 0x20 || (0x09 <= u && u <= 0x0d) || u == 0x85 || u == 0xa0 || u == 0x1680 || (0x2000
        <= u && u <= 0x200a) || u == 0x2028 || u == 0x2029 || u == 0x202f || u == 0x205f || u
        == 0x3000
}

/// The maximal runs of non-whitespace characters of `s`, in order.
pub open spec fn split_ws(s: Seq<char>) -> Seq<Seq<char>>
    decreases s.len(),
{
    if s.len() == 0 {
        seq![]
    } else {
        let rest = split_ws(s.drop_last());
        let c = s.last();
        if is_ws(c) {
            rest
        } else if s.len() >= 2 && !is_ws(s[s.len() - 2]) {
            rest.drop_last().push(rest.last().push(c))
        } else {
            rest.push(seq![c])
        }
    }
}

/// The words of `ts` with one space between each two.
pub open spec fn join_sp(ts: Seq<Seq<char>>) -> Seq<char>
    decreases ts.len(),
{
    if ts.len() == 0 {
        seq![]
    } else if ts.len() == 1 {
        ts[0]
    } else {
        join_sp(ts.drop_last()) + seq![' '] + ts.last()
    }
}

pub open spec fn digit_value(c: char) -> nat {
    (c as u32 - '0' as u32) as nat
}

pub open spec fn all_digits(d: Seq<char>) -> bool {
    forall|i: int| 0 <= i < d.len() ==> '0' <= #[trigger] d[i] && d[i] <= '9'
}

/// The number that the decimal digits `d` write.
pub open spec fn digits_value(d: Seq<char>) -> nat
    decreases d.len(),
{
    if d.len() == 0 {
        0
    } else {
        digits_value(d.drop_last()) * 10 + digit_value(d.last())
    }
}

/// The digits of a token, without the one leading `+` that it may carry.
pub open spec fn unsigned_digits(t: Seq<char>) -> Seq<char> {
    if t.len() > 0 && t[0] == '+' {
        t.drop_first()
    } else {
        t
    }
}

/// A token as `usize::from_str` reads it: an optional `+`, then one or more decimal
/// digits whose value fits in `usize`.
pub open spec fn parse_usize(t: Seq<char>) -> Option<usize> {
    let d = unsigned_digits(t);
    if d.len() > 0 && all_digits(d) && digits_value(d) <= usize::MAX {
        Some(digits_value(d) as usize)
    } else {
        None
    }
}

pub open spec fn views(v: Seq<String>) -> Seq<Seq<char>> {
    v.map_values(|s: String| s@)
}

/// Whether `s` holds exactly the characters `w`.
pub fn is_word(s: &String, w: &str) -> (r: bool)
    ensures
        r == (s@ == w@),
{
    let a = s.as_str();
    let n = a.unicode_len();
    let m = w.unicode_len();
    if n != m {
        return false;
    }
    let mut i: usize = 0;
    while i < n
        invariant
            n == a@.len(),
            m == w@.len(),
            n == m,
            a@ == s@,
            i <= n,
            forall|j: int| 0 <= j < i ==> a@[j] == w@[j],
        decreases n - i,
    {
        if a.get_char(i) != w.get_char(i) {
            return false;
        }
        i = i + 1;
    }
    assert(s@ =~= w@);
    true
}

/// Splits `s` into its whitespace-separated words.
pub fn split_whitespace(s: &str) -> (r: Vec<String>)
    ensures
        views(r@) == split_ws(s@),
{
    let n = s.unicode_len();
    let mut toks: Vec<String> = Vec::new();
    let mut in_run = false;
    let mut start: usize = 0;
    let mut i: usize = 0;
    while i < n
        invariant
            n == s@.len(),
            i <= n,
            start <= i,
            !in_run ==> views(toks@) == split_ws(s@.take(i as int)),
            !in_run ==> (i == 0 || is_ws(s@[i - 1])),
            in_run ==> start < i && !is_ws(s@[i - 1]) && split_ws(s@.take(i as int)).len() > 0
                && views(toks@) == split_ws(s@.take(i as int)).drop_last() && split_ws(
                s@.take(i as int),
            ).last() == s@.subrange(start as int, i as int),
        decreases n - i,
    {
        let c = s.get_char(i);
        proof {
            let t = s@.take(i + 1);
            assert(t.drop_last() =~= s@.take(i as int));
            assert(t.last() == c);
            if i >= 1 {
                assert(t[t.len() - 2] == s@[i - 1]);
            }
        }
        if is_ws_char(c) {
            if in_run {
                proof {
                    let d = split_ws(s@.take(i as int));
                    assert(d =~= d.drop_last().push(d.last()));
                }
                let w = s.substring_char(start, i);
                toks.push(w.to_string());
                proof {
                    broadcast use vstd::string::group_string_axioms;
                    assert(views(toks@) =~= views(toks@).drop_last().push(w@));
                }
                in_run = false;
            }
            proof {
                broadcast use vstd::string::group_string_axioms;
                assert(views(toks@) =~= split_ws(s@.take(i + 1)));
            }
        } else {
            if !in_run {
                start = i;
                in_run = true;
                proof {
                    assert(s@.subrange(start as int, i + 1) =~= seq![c]);
                    assert(split_ws(s@.take(i + 1)).drop_last() =~= split_ws(s@.take(i as int)));
                }
            } else {
                proof {
                    assert(s@.subrange(start as int, i + 1) =~= s@.subrange(
                        start as int,
                        i as int,
                    ).push(c));
                    let d = split_ws(s@.take(i as int));
                    assert(split_ws(s@.take(i + 1)).drop_last() =~= d.drop_last());
                }
            }
        }
        i = i + 1;
    }
    if in_run {
        proof {
            let d = split_ws(s@.take(i as int));
            assert(d =~= d.drop_last().push(d.last()));
        }
        let w = s.substring_char(start, n);
        toks.push(w.to_string());
        proof {
            broadcast use vstd::string::group_string_axioms;
            assert(views(toks@) =~= views(toks@).drop_last().push(w@));
        }
    }
    assert(s@.take(n as int) =~= s@);
    toks
}

/// Joins `ts` with one space between each two words.
pub fn join_words(ts: &[String]) -> (r: String)
    ensures
        r@ == join_sp(views(ts@)),
{
    let mut r = String::new();
    let mut i: usize = 0;
    while i < ts.len()
        invariant
            i <= ts@.len(),
            r@ == join_sp(views(ts@.take(i as int))),
        decreases ts@.len() - i,
    {
        proof {
            reveal_strlit(" ");
            assert(views(ts@.take(i + 1)).drop_last() =~= views(ts@.take(i as int)));
            assert(views(ts@.take(i + 1)).last() == ts@[i as int]@);
            if i == 0 {
                assert(views(ts@.take(1)) =~= seq![ts@[0]@]);
            }
        }
        if i > 0 {
            r.append(" ");
        }
        r.append(ts[i].as_str());
        i = i + 1;
    }
    assert(ts@.take(ts@.len() as int) =~= ts@);
    r
}

proof fn lemma_prefix_value_le(d: Seq<char>, j: int)
    requires
        0 <= j <= d.len(),
    ensures
        digits_value(d.take(j)) <= digits_value(d),
    decreases d.len() - j,
{
    if j < d.len() {
        lemma_prefix_value_le(d, j + 1);
        assert(d.take(j + 1).drop_last() =~= d.take(j));
    } else {
        assert(d.take(j) =~= d);
    }
}

/// Reads a token as an unsigned decimal number, as `usize::from_str` does.
pub fn parse_decimal(t: &String) -> (r: Option<usize>)
    ensures
        r == parse_usize(t@),
{
    let a = t.as_str();
    let n = a.unicode_len();
    let mut i: usize = 0;
    if n > 0 && a.get_char(0) == '+' {
        i = 1;
    }
    let ghost d = unsigned_digits(t@);
    proof {
        assert(d =~= t@.subrange(i as int, n as int));
    }
    if i == n {
        return None;
    }
    let mut acc: usize = 0;
    let first = i;
    while i < n
        invariant
            n == t@.len(),
            a@ == t@,
            first <= i <= n,
            d == t@.subrange(first as int, n as int),
            d == unsigned_digits(t@),
            d.len() > 0,
            all_digits(d.take(i - first)),
            acc as nat == digits_value(d.take(i - first)),
        decreases n - i,
    {
        let c = a.get_char(i);
        proof {
            assert(d.take(i - first + 1).drop_last() =~= d.take(i - first));
            assert(d.take(i - first + 1).last() == c);
        }
        if c < '0' || c > '9' {
            assert(!all_digits(d));
            return None;
        }
        let dv = (c as u32 - '0' as u32) as usize;
        match acc.checked_mul(10) {
            None => {
                proof {
                    lemma_prefix_value_le(d, i - first + 1);
                }
                return None;
            },
            Some(m) => match m.checked_add(dv) {
                None => {
                    proof {
                        lemma_prefix_value_le(d, i - first + 1);
                    }
                    return None;
                },
                Some(v) => {
                    acc = v;
                },
            },
        }
        proof {
            assert(all_digits(d.take(i - first + 1)));
        }
        i = i + 1;
    }
    assert(d.take(n - first) =~= d);
    Some(acc)
}

/// `char::is_whitespace`, written out.
pub fn is_ws_char(c: char) -> (r: bool)
    ensures
        r == is_ws(c),
{
    let u = c as u32;
    u == 0x20 || (0x09 <= u && u <= 0x0d) || u == 0x85 || u == 0xa0 || u == 0x1680 || (0x2000
        <= u && u <= 0x200a) || u == 0x2028 || u == 0x2029 || u == 0x202f || u == 0x205f || u
        == 0x3000
}

} // verus!
