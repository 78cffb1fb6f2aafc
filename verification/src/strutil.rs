//! Decimal rendering of integers and comma-joining of string lists,
//! verified against spec-level sequence definitions.

use vstd::prelude::*;
use vstd::string::StringExecFns;

verus! {

/// The decimal digit character for a value below ten.
pub open spec fn spec_digit(d: nat) -> char {
    if d == 0 {
        '0'
    } else if d == 1 {
        '1'
    } else if d == 2 {
        '2'
    } else if d == 3 {
        '3'
    } else if d == 4 {
        '4'
    } else if d == 5 {
        '5'
    } else if d == 6 {
        '6'
    } else if d == 7 {
        '7'
    } else if d == 8 {
        '8'
    } else {
        '9'
    }
}

/// The decimal representation of a natural number, most significant digit first.
pub open spec fn spec_dec(n: nat) -> Seq<char>
    decreases n,
{
    if n < 10 {
        seq![spec_digit(n)]
    } else {
        spec_dec(n / 10).push(spec_digit(n % 10))
    }
}

/// The decimal representation of an integer, with a leading minus sign when negative.
pub open spec fn spec_dec_signed(n: int) -> Seq<char> {
    if n < 0 {
        seq!['-'] + spec_dec((-n) as nat)
    } else {
        spec_dec(n as nat)
    }
}

fn digit_str(d: u64) -> (r: &'static str)
    requires
        d < 10,
    ensures
        r@ == seq![spec_digit(d as nat)],
{
    proof {
        reveal_strlit("0");
        reveal_strlit("1");
        reveal_strlit("2");
        reveal_strlit("3");
        reveal_strlit("4");
        reveal_strlit("5");
        reveal_strlit("6");
        reveal_strlit("7");
        reveal_strlit("8");
        reveal_strlit("9");
    }
    let r: &'static str = match d {
        0 => "0",
        1 => "1",
        2 => "2",
        3 => "3",
        4 => "4",
        5 => "5",
        6 => "6",
        7 => "7",
        8 => "8",
        _ => "9",
    };
    proof {
        assert(r@ =~= seq![spec_digit(d as nat)]);
    }
    r
}

/// Renders an unsigned value in decimal.
pub fn u64_to_string(n: u64) -> (r: String)
    ensures
        r@ == spec_dec(n as nat),
    decreases n,
{
    if n < 10 {
        digit_str(n).to_owned()
    } else {
        assert(n / 10 < n) by (nonlinear_arith)
            requires
                n >= 10,
        ;
        let mut s = u64_to_string(n / 10);
        s.append(digit_str(n % 10));
        proof {
            assert(s@ =~= spec_dec(n as nat));
        }
        s
    }
}

/// Renders a signed value in decimal, with a minus sign when negative.
pub fn i64_to_string(n: i64) -> (r: String)
    ensures
        r@ == spec_dec_signed(n as int),
{
    if n < 0 {
        let mag: u64 = if n == i64::MIN {
            9223372036854775808u64
        } else {
            (-n) as u64
        };
        assert(mag == -(n as int));
        let mut s = "-".to_owned();
        proof {
            reveal_strlit("-");
            assert(s@ =~= seq!['-']);
        }
        s.append(u64_to_string(mag).as_str());
        proof {
            assert(s@ =~= spec_dec_signed(n as int));
        }
        s
    } else {
        u64_to_string(n as u64)
    }
}

/// The strings of a sequence joined by a separator, in order.
pub open spec fn spec_join_sep(s: Seq<Seq<char>>, sep: Seq<char>) -> Seq<char>
    decreases s.len(),
{
    if s.len() == 0 {
        Seq::empty()
    } else if s.len() == 1 {
        s[0]
    } else {
        s[0] + sep + spec_join_sep(s.drop_first(), sep)
    }
}

proof fn lemma_join_sep_push(s: Seq<Seq<char>>, x: Seq<char>, sep: Seq<char>)
    ensures
        spec_join_sep(s.push(x), sep) == if s.len() == 0 {
            x
        } else {
            spec_join_sep(s, sep) + sep + x
        },
    decreases s.len(),
{
    if s.len() == 0 {
        assert(s.push(x).len() == 1);
        assert(s.push(x)[0] == x);
        assert(spec_join_sep(s.push(x), sep) == x);
    } else {
        let t = s.push(x);
        assert(t.drop_first() =~= s.drop_first().push(x));
        lemma_join_sep_push(s.drop_first(), x, sep);
        if s.len() == 1 {
            assert(spec_join_sep(t, sep) == t[0] + sep + spec_join_sep(t.drop_first(), sep));
            assert(t[0] == s[0]);
            assert(spec_join_sep(t.drop_first(), sep) == x);
            assert(spec_join_sep(s, sep) == s[0]);
        } else {
            assert(spec_join_sep(t, sep) == t[0] + sep + spec_join_sep(t.drop_first(), sep));
            assert(spec_join_sep(t.drop_first(), sep) == spec_join_sep(s.drop_first(), sep) + sep
                + x);
            assert(spec_join_sep(s, sep) == s[0] + sep + spec_join_sep(s.drop_first(), sep));
            assert(spec_join_sep(t, sep) =~= spec_join_sep(s, sep) + sep + x);
        }
    }
}

/// The views of a sequence of strings.
pub open spec fn segs_view(v: Seq<String>) -> Seq<Seq<char>> {
    v.map_values(|s: String| s@)
}

/// Joins the strings of a vector with a separator, in order.
pub fn join_sep(v: &Vec<String>, sep: &str) -> (r: String)
    ensures
        r@ == spec_join_sep(segs_view(v@), sep@),
{
    let mut r = String::new();
    let mut i: usize = 0;
    while i < v.len()
        invariant
            i <= v.len(),
            r@ == spec_join_sep(segs_view(v@).take(i as int), sep@),
        decreases v.len() - i,
    {
        if i > 0 {
            r.append(sep);
        }
        r.append(v[i].as_str());
        proof {
            let prefix = segs_view(v@).take(i as int);
            let next = segs_view(v@).take(i + 1);
            assert(next =~= prefix.push(v@[i as int]@));
            lemma_join_sep_push(prefix, v@[i as int]@, sep@);
            assert(r@ =~= spec_join_sep(next, sep@));
        }
        i = i + 1;
    }
    proof {
        assert(segs_view(v@).take(v@.len() as int) =~= segs_view(v@));
    }
    r
}

} // verus!
