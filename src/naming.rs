//! Names of the files that captured frames are written to.

use vstd::prelude::*;

verus! {

/// The decimal digit for `d` (below ten).
pub open spec fn digit(d: nat) -> char {
    "0123456789"@[d as int]
}

/// Decimal notation of `n`, without leading zeros.
pub open spec fn decimal(n: nat) -> Seq<char>
    decreases n,
{
    if n < 10 {
        seq![digit(n)]
    } else {
        decimal(n / 10).push(digit(n % 10))
    }
}

/// A label made fit for a file name: each space becomes an underscore and
/// parentheses are dropped.
pub open spec fn sanitized(s: Seq<char>) -> Seq<char>
    decreases s.len(),
{
    if s.len() == 0 {
        seq![]
    } else {
        let rest = sanitized(s.drop_last());
        let c = s.last();
        if c == ' ' {
            rest.push('_')
        } else if c == '(' || c == ')' {
            rest
        } else {
            rest.push(c)
        }
    }
}

/// Appends the decimal notation of `n` to `out`.
pub fn push_decimal(out: &mut String, n: usize)
    ensures
        final(out)@ == old(out)@ + decimal(n as nat),
    decreases n,
{
    let digits = "0123456789";
    proof {
        reveal_strlit("0123456789");
    }
    if n >= 10 {
        push_decimal(out, n / 10);
    }
    let d = n % 10;
    out.append(digits.substring_char(d, d + 1));
    proof {
        assert(digits@.subrange(d as int, d + 1) =~= seq![digit(d as nat)]);
    }
}

/// Appends `label` to `out`, made fit for a file name.
pub fn push_sanitized(out: &mut String, label: &str)
    ensures
        final(out)@ == old(out)@ + sanitized(label@),
{
    let n = label.unicode_len();
    let ghost start = out@;
    let mut i: usize = 0;
    while i < n
        invariant
            n == label@.len(),
            i <= n,
            out@ == start + sanitized(label@.subrange(0, i as int)),
        decreases n - i,
    {
        let c = label.get_char(i);
        proof {
            assert(label@.subrange(0, i + 1).drop_last() =~= label@.subrange(0, i as int));
        }
        if c == ' ' {
            proof {
                reveal_strlit("_");
            }
            out.append("_");
        } else if c != '(' && c != ')' {
            out.append(label.substring_char(i, i + 1));
        }
        i = i + 1;
    }
    proof {
        assert(label@.subrange(0, n as int) =~= label@);
    }
}

} // verus!
