//! Snapshot naming: a backup file is named after the wall-clock time of the
//! update, in milliseconds since the Unix epoch, as
//! `<dir>/backup.<millis>.html`.

use vstd::arithmetic::div_mod::{lemma_div_is_ordered, lemma_fundamental_div_mod};
use vstd::prelude::*;

verus! {

/// The decimal digit character for a value below ten.
pub open spec fn digit_char(d: nat) -> char {
    if d == 0 {
        '0'
    } else if d == 1 {
        '1'
    } else if d == 2 {
        '2'
    } else if d == 3 {
        '3'
    } else if d == 4 {
        '4'
    } else if d == 5 {
        '5'
    } else if d == 6 {
        '6'
    } else if d == 7 {
        '7'
    } else if d == 8 {
        '8'
    } else {
        '9'
    }
}

/// The decimal digit string of `n`, most significant digit first,
/// without padding.
pub open spec fn spec_digits(n: nat) -> Seq<char>
    decreases n,
{
    if n < 10 {
        seq![digit_char(n)]
    } else {
        spec_digits(n / 10) + seq![digit_char(n % 10)]
    }
}

/// The snapshot path derived from a backup directory and a time in
/// milliseconds since the Unix epoch.
pub open spec fn backup_name(dir: Seq<char>, now_millis: nat) -> Seq<char> {
    dir + "/backup."@ + spec_digits(now_millis) + ".html"@
}

fn digit_str(d: u64) -> (r: &'static str)
    requires
        d < 10,
    ensures
        r@ == seq![digit_char(d as nat)],
{
    proof {
        reveal_strlit("0");
        reveal_strlit("1");
        reveal_strlit("2");
        reveal_strlit("3");
        reveal_strlit("4");
        reveal_strlit("5");
        reveal_strlit("6");
        reveal_strlit("7");
        reveal_strlit("8");
        reveal_strlit("9");
    }
    let r = match d {
        0 => "0",
        1 => "1",
        2 => "2",
        3 => "3",
        4 => "4",
        5 => "5",
        6 => "6",
        7 => "7",
        8 => "8",
        _ => "9",
    };
    proof {
        assert(r@ =~= seq![digit_char(d as nat)]);
    }
    r
}

/// Renders `n` in decimal, most significant digit first, no padding.
pub fn u64_to_decimal(n: u64) -> (r: String)
    ensures
        r@ == spec_digits(n as nat),
    decreases n,
{
    if n < 10 {
        String::from_str(digit_str(n))
    } else {
        let prefix = u64_to_decimal(n / 10);
        let r = prefix.concat(digit_str(n % 10));
        proof {
            assert(r@ =~= spec_digits(n as nat));
        }
        r
    }
}

/// Derives the snapshot path for an update that buffered its body at
/// `now_millis` milliseconds since the Unix epoch. A pure function of its
/// inputs: the caller supplies the wall-clock reading.
pub fn gen_backup_filename(backup_dir: &str, now_millis: u64) -> (r: String)
    ensures
        r@ == backup_name(backup_dir@, now_millis as nat),
{
    let digits = u64_to_decimal(now_millis);
    let r = String::from_str(backup_dir).concat("/backup.").concat(digits.as_str()).concat(".html");
    proof {
        assert(r@ =~= backup_name(backup_dir@, now_millis as nat));
    }
    r
}

/// Strict lexicographic order on character sequences: decided by code
/// point at the first differing position, and a proper prefix sorts
/// before its extensions.
pub open spec fn lex_lt(s: Seq<char>, t: Seq<char>) -> bool
    decreases s.len(),
{
    t.len() > 0 && (s.len() == 0 || (s[0] as int) < (t[0] as int) || (s[0] == t[0] && lex_lt(
        s.drop_first(),
        t.drop_first(),
    )))
}

proof fn lemma_digits_len(n: nat)
    ensures
        spec_digits(n).len() >= 1,
        (n < 10) <==> (spec_digits(n).len() == 1),
        n >= 10 ==> spec_digits(n).len() == spec_digits(n / 10).len() + 1,
    decreases n,
{
    if n >= 10 {
        lemma_digits_len(n / 10);
    }
}

proof fn lemma_lex_last_differs(p: Seq<char>, c: char, d: char)
    requires
        (c as int) < (d as int),
    ensures
        lex_lt(p + seq![c], p + seq![d]),
    decreases p.len(),
{
    let s = p + seq![c];
    let t = p + seq![d];
    if p.len() == 0 {
        assert(s =~= seq![c]);
        assert(t =~= seq![d]);
    } else {
        lemma_lex_last_differs(p.drop_first(), c, d);
        assert(s.drop_first() =~= p.drop_first() + seq![c]);
        assert(t.drop_first() =~= p.drop_first() + seq![d]);
        assert(s[0] == t[0]);
    }
}

proof fn lemma_lex_append_any(p: Seq<char>, q: Seq<char>, u: Seq<char>, v: Seq<char>)
    requires
        p.len() == q.len(),
        lex_lt(p, q),
    ensures
        lex_lt(p + u, q + v),
    decreases p.len(),
{
    assert(p.len() > 0);
    let s = p + u;
    let t = q + v;
    assert(s[0] == p[0]);
    assert(t[0] == q[0]);
    if (p[0] as int) < (q[0] as int) {
    } else {
        assert(p[0] == q[0] && lex_lt(p.drop_first(), q.drop_first()));
        lemma_lex_append_any(p.drop_first(), q.drop_first(), u, v);
        assert(s.drop_first() =~= p.drop_first() + u);
        assert(t.drop_first() =~= q.drop_first() + v);
    }
}

proof fn lemma_lex_same_prefix(pre: Seq<char>, s: Seq<char>, t: Seq<char>)
    requires
        lex_lt(s, t),
    ensures
        lex_lt(pre + s, pre + t),
    decreases pre.len(),
{
    if pre.len() == 0 {
        assert(pre + s =~= s);
        assert(pre + t =~= t);
    } else {
        lemma_lex_same_prefix(pre.drop_first(), s, t);
        assert((pre + s).drop_first() =~= pre.drop_first() + s);
        assert((pre + t).drop_first() =~= pre.drop_first() + t);
        assert((pre + s)[0] == (pre + t)[0]);
        assert(lex_lt(s, t) ==> t.len() > 0);
    }
}

/// Equal-length decimal renderings compare lexicographically as the
/// numbers do.
proof fn lemma_digits_order(a: nat, b: nat)
    requires
        a < b,
        spec_digits(a).len() == spec_digits(b).len(),
    ensures
        lex_lt(spec_digits(a), spec_digits(b)),
    decreases b,
{
    lemma_digits_len(a);
    lemma_digits_len(b);
    if b < 10 {
        assert((digit_char(a) as int) < (digit_char(b) as int));
        assert(spec_digits(a) == seq![digit_char(a)]);
        assert(spec_digits(b) == seq![digit_char(b)]);
        assert(lex_lt(spec_digits(a), spec_digits(b)));
    } else {
        assert(a >= 10);
        let qa = a / 10;
        let qb = b / 10;
        lemma_div_is_ordered(a as int, b as int, 10);
        assert(spec_digits(qa).len() == spec_digits(qb).len());
        if qa == qb {
            lemma_fundamental_div_mod(a as int, 10);
            lemma_fundamental_div_mod(b as int, 10);
            assert(a % 10 < b % 10);
            assert((digit_char(a % 10) as int) < (digit_char(b % 10) as int));
            lemma_lex_last_differs(spec_digits(qa), digit_char(a % 10), digit_char(b % 10));
        } else {
            lemma_digits_order(qa, qb);
            lemma_lex_append_any(
                spec_digits(qa),
                spec_digits(qb),
                seq![digit_char(a % 10)],
                seq![digit_char(b % 10)],
            );
        }
    }
}

/// For two updates completed at wall-clock times `t1 < t2` in different
/// milliseconds, the snapshot name derived at `t2` sorts lexicographically
/// after the one derived at `t1`, provided the two times have decimal
/// renderings of the same length. Every epoch-millisecond reading between
/// September 2001 and November 2286 is thirteen digits long, so the
/// proviso holds of any two readings a running server ever compares; with
/// renderings of different lengths the claim itself fails (the name for
/// time 9 sorts after the name for time 10).
pub proof fn lemma_monotonic_naming(dir: Seq<char>, t1: nat, t2: nat)
    requires
        t1 < t2,
        spec_digits(t1).len() == spec_digits(t2).len(),
    ensures
        lex_lt(backup_name(dir, t1), backup_name(dir, t2)),
{
    lemma_digits_order(t1, t2);
    lemma_lex_append_any(spec_digits(t1), spec_digits(t2), ".html"@, ".html"@);
    lemma_lex_same_prefix(
        dir + "/backup."@,
        spec_digits(t1) + ".html"@,
        spec_digits(t2) + ".html"@,
    );
    assert(backup_name(dir, t1) =~= (dir + "/backup."@) + (spec_digits(t1) + ".html"@));
    assert(backup_name(dir, t2) =~= (dir + "/backup."@) + (spec_digits(t2) + ".html"@));
}

} // verus!
