//! Small verified helpers on strings: equality, joining a list with a
//! separator, and decimal formatting of integers.

use vstd::prelude::*;

verus! {

/// The parts joined with `sep` between neighbours: `a`, `a sep b`, ...
pub open spec fn spec_join_with(parts: Seq<Seq<char>>, sep: Seq<char>) -> Seq<char>
    decreases parts.len(),
{
    if parts.len() == 0 {
        Seq::empty()
    } else if parts.len() == 1 {
        parts[0]
    } else {
        parts[0] + sep + spec_join_with(parts.drop_first(), sep)
    }
}

pub proof fn lemma_join_with_push(parts: Seq<Seq<char>>, sep: Seq<char>, last: Seq<char>)
    ensures
        spec_join_with(parts.push(last), sep) == if parts.len() == 0 {
            last
        } else {
            spec_join_with(parts, sep) + sep + last
        },
    decreases parts.len(),
{
    if parts.len() == 0 {
        assert(parts.push(last).len() == 1);
        assert(spec_join_with(parts.push(last), sep) == parts.push(last)[0]);
    } else if parts.len() == 1 {
        let p = parts.push(last);
        assert(p.drop_first() =~= seq![last]);
        assert(spec_join_with(seq![last], sep) == last);
        assert(spec_join_with(p, sep) == p[0] + sep + spec_join_with(p.drop_first(), sep));
        assert(p[0] == parts[0]);
    } else {
        assert(parts.push(last).drop_first() =~= parts.drop_first().push(last));
        lemma_join_with_push(parts.drop_first(), sep, last);
        assert(spec_join_with(parts.drop_first().push(last), sep) == spec_join_with(
            parts.drop_first(),
            sep,
        ) + sep + last);
        assert((parts[0] + sep + (spec_join_with(parts.drop_first(), sep) + sep + last)) =~= ((
        parts[0] + sep + spec_join_with(parts.drop_first(), sep)) + sep + last));
    }
}

/// Joins the given strings with `sep` between neighbours.
pub fn join_with(parts: &Vec<String>, sep: &str) -> (r: String)
    ensures
        r@ == spec_join_with(parts.deep_view(), sep@),
{
    let mut r = String::new();
    let mut i: usize = 0;
    while i < parts.len()
        invariant
            i <= parts.len(),
            r@ == spec_join_with(parts.deep_view().take(i as int), sep@),
        decreases parts.len() - i,
    {
        if i > 0 {
            r.append(sep);
        }
        r.append(parts[i].as_str());
        proof {
            let prefix = parts.deep_view().take(i as int);
            lemma_join_with_push(prefix, sep@, parts.deep_view()[i as int]);
            assert(parts.deep_view().take(i + 1) =~= prefix.push(parts.deep_view()[i as int]));
        }
        i = i + 1;
    }
    proof {
        assert(parts.deep_view().take(parts.len() as int) =~= parts.deep_view());
    }
    r
}

/// The character for one decimal digit.
pub open spec fn spec_digit(d: int) -> char {
    if d == 0 {
        '0'
    } else if d == 1 {
        '1'
    } else if d == 2 {
        '2'
    } else if d == 3 {
        '3'
    } else if d == 4 {
        '4'
    } else if d == 5 {
        '5'
    } else if d == 6 {
        '6'
    } else if d == 7 {
        '7'
    } else if d == 8 {
        '8'
    } else {
        '9'
    }
}

/// The decimal digits of `n`, most significant first, without a sign and
/// without leading zeroes (a single `0` for zero).
pub open spec fn spec_dec(n: nat) -> Seq<char>
    decreases n,
{
    if n < 10 {
        seq![spec_digit(n as int)]
    } else {
        spec_dec(n / 10).push(spec_digit((n % 10) as int))
    }
}

fn digit_to_string(d: u64) -> (r: String)
    requires
        d < 10,
    ensures
        r@ =~= seq![spec_digit(d as int)],
{
    proof {
        reveal_strlit("0");
        reveal_strlit("1");
        reveal_strlit("2");
        reveal_strlit("3");
        reveal_strlit("4");
        reveal_strlit("5");
        reveal_strlit("6");
        reveal_strlit("7");
        reveal_strlit("8");
        reveal_strlit("9");
    }
    if d == 0 {
        String::from_str("0")
    } else if d == 1 {
        String::from_str("1")
    } else if d == 2 {
        String::from_str("2")
    } else if d == 3 {
        String::from_str("3")
    } else if d == 4 {
        String::from_str("4")
    } else if d == 5 {
        String::from_str("5")
    } else if d == 6 {
        String::from_str("6")
    } else if d == 7 {
        String::from_str("7")
    } else if d == 8 {
        String::from_str("8")
    } else {
        String::from_str("9")
    }
}

/// Formats `n` in decimal.
pub fn u64_to_dec(n: u64) -> (r: String)
    ensures
        r@ == spec_dec(n as nat),
    decreases n,
{
    if n < 10 {
        digit_to_string(n)
    } else {
        let mut r = u64_to_dec(n / 10);
        let d = digit_to_string(n % 10);
        r.append(d.as_str());
        proof {
            assert(r@ =~= spec_dec((n / 10) as nat).push(spec_digit((n % 10) as int)));
        }
        r
    }
}

/// Whether two string slices hold the same characters.
pub fn str_eq(a: &str, b: &str) -> (r: bool)
    ensures
        r == (a@ == b@),
{
    let a_len = a.unicode_len();
    let b_len = b.unicode_len();
    if a_len != b_len {
        return false;
    }
    let mut i: usize = 0;
    while i < a_len
        invariant
            a_len == a@.len(),
            b_len == b@.len(),
            a_len == b_len,
            i <= a_len,
            forall|j: int| 0 <= j < i ==> a@[j] == b@[j],
        decreases a_len - i,
    {
        if a.get_char(i) != b.get_char(i) {
            return false;
        }
        i = i + 1;
    }
    proof {
        assert(a@ =~= b@);
    }
    true
}

} // verus!
