//! Small string-formatting helpers: decimal rendering of ordinals,
//! positional bind-parameter placeholders, and comma joining.

use vstd::prelude::*;
use vstd::string::StringExecFns;

verus! {

/// The decimal digit character for `d` (meaningful for `d < 10`).
pub open spec fn digit_char(d: nat) -> char {
    if d == 0 {
        '0'
    } else if d == 1 {
        '1'
    } else if d == 2 {
        '2'
    } else if d == 3 {
        '3'
    } else if d == 4 {
        '4'
    } else if d == 5 {
        '5'
    } else if d == 6 {
        '6'
    } else if d == 7 {
        '7'
    } else if d == 8 {
        '8'
    } else {
        '9'
    }
}

/// The decimal rendering of `n`, most significant digit first.
pub open spec fn dec_str(n: nat) -> Seq<char>
    decreases n,
{
    if n < 10 {
        seq![digit_char(n)]
    } else {
        dec_str(n / 10) + seq![digit_char(n % 10)]
    }
}

/// The `i`-th positional bind parameter of the Postgres dialect: `$i`.
pub open spec fn placeholder(i: nat) -> Seq<char> {
    seq!['$'] + dec_str(i)
}

/// The first `n` positional bind parameters, `$1` through `$n`, in order.
pub open spec fn placeholders(n: nat) -> Seq<Seq<char>>
    decreases n,
{
    if n == 0 {
        Seq::empty()
    } else {
        placeholders((n - 1) as nat).push(placeholder(n))
    }
}

pub proof fn lemma_placeholders_len(n: nat)
    ensures
        placeholders(n).len() == n,
    decreases n,
{
    if n > 0 {
        lemma_placeholders_len((n - 1) as nat);
    }
}

/// The elements of `parts` concatenated, with `sep` between neighbours.
pub open spec fn join_with_spec(parts: Seq<Seq<char>>, sep: Seq<char>) -> Seq<char>
    decreases parts.len(),
{
    if parts.len() == 0 {
        Seq::empty()
    } else if parts.len() == 1 {
        parts[0]
    } else {
        parts[0] + sep + join_with_spec(parts.drop_first(), sep)
    }
}

/// Relies on `itertools::Itertools::join`: it concatenates the elements'
/// `Display` forms (for `String`, the string itself) with `sep` between
/// neighbours, and returns the empty string for an empty iterator.
#[verifier::external_body]
pub(crate) fn join_with(parts: &Vec<String>, sep: &str) -> (r: String)
    ensures
        r@ == join_with_spec(parts.deep_view(), sep@),
{
    itertools::Itertools::join(&mut parts.iter(), sep)
}

/// The decimal rendering of `n`, most significant digit first.
fn usize_to_decimal(n: usize) -> (r: String)
    ensures
        r@ == dec_str(n as nat),
    decreases n,
{
    let d = n % 10;
    let digit: &str = if d == 0 {
        "0"
    } else if d == 1 {
        "1"
    } else if d == 2 {
        "2"
    } else if d == 3 {
        "3"
    } else if d == 4 {
        "4"
    } else if d == 5 {
        "5"
    } else if d == 6 {
        "6"
    } else if d == 7 {
        "7"
    } else if d == 8 {
        "8"
    } else {
        "9"
    };
    proof {
        reveal_strlit("0");
        reveal_strlit("1");
        reveal_strlit("2");
        reveal_strlit("3");
        reveal_strlit("4");
        reveal_strlit("5");
        reveal_strlit("6");
        reveal_strlit("7");
        reveal_strlit("8");
        reveal_strlit("9");
        assert(digit@ =~= seq![digit_char((n % 10) as nat)]);
    }
    if n < 10 {
        digit.to_owned()
    } else {
        let mut s = usize_to_decimal(n / 10);
        s.append(digit);
        proof {
            assert((n / 10) as nat == (n as nat) / 10);
            assert((n % 10) as nat == (n as nat) % 10);
        }
        s
    }
}

/// The Postgres bind-parameter list for `n` bound values: `$1` .. `$n`,
/// with 1-based ordinal numbering.
pub fn bindings(n: usize) -> (r: Vec<String>)
    ensures
        r.deep_view() == placeholders(n as nat),
{
    let mut r: Vec<String> = Vec::new();
    let mut i: usize = 0;
    while i < n
        invariant
            i <= n,
            r.deep_view() == placeholders(i as nat),
        decreases n - i,
    {
        let mut p = "$".to_owned();
        let num = usize_to_decimal(i + 1);
        p.append(num.as_str());
        proof {
            reveal_strlit("$");
            assert("$"@ =~= seq!['$']);
            assert(p@ == placeholder((i + 1) as nat));
        }
        r.push(p);
        proof {
            assert(r.deep_view() =~= placeholders((i + 1) as nat));
        }
        i = i + 1;
    }
    r
}

} // verus!
