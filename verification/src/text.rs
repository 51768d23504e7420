//! Small verified building blocks for generated C code text: decimal
//! rendering of integers, ASCII upper-casing, and joining with separators.
use vstd::prelude::*;
use vstd::string::*;

verus! {

/// The decimal digit character for a single digit value.
pub open spec fn spec_digit_char(d: nat) -> char
    recommends
        d < 10,
{
    if d == 0 {
        '0'
    } else if d == 1 {
        '1'
    } else if d == 2 {
        '2'
    } else if d == 3 {
        '3'
    } else if d == 4 {
        '4'
    } else if d == 5 {
        '5'
    } else if d == 6 {
        '6'
    } else if d == 7 {
        '7'
    } else if d == 8 {
        '8'
    } else {
        '9'
    }
}

/// The decimal rendering of a natural number, most significant digit first,
/// with no leading zeros (except for the number zero itself).
pub open spec fn spec_decimal(n: nat) -> Seq<char>
    decreases n,
{
    if n < 10 {
        seq![spec_digit_char(n)]
    } else {
        spec_decimal(n / 10) + seq![spec_digit_char(n % 10)]
    }
}

fn digit_str(d: u64) -> (r: &'static str)
    requires
        d < 10,
    ensures
        r@ == seq![spec_digit_char(d as nat)],
{
    if d == 0 {
        let s = "0";
        proof {
            reveal_strlit("0");
            assert(s@ =~= seq![spec_digit_char(0)]);
        }
        s
    } else if d == 1 {
        let s = "1";
        proof {
            reveal_strlit("1");
            assert(s@ =~= seq![spec_digit_char(1)]);
        }
        s
    } else if d == 2 {
        let s = "2";
        proof {
            reveal_strlit("2");
            assert(s@ =~= seq![spec_digit_char(2)]);
        }
        s
    } else if d == 3 {
        let s = "3";
        proof {
            reveal_strlit("3");
            assert(s@ =~= seq![spec_digit_char(3)]);
        }
        s
    } else if d == 4 {
        let s = "4";
        proof {
            reveal_strlit("4");
            assert(s@ =~= seq![spec_digit_char(4)]);
        }
        s
    } else if d == 5 {
        let s = "5";
        proof {
            reveal_strlit("5");
            assert(s@ =~= seq![spec_digit_char(5)]);
        }
        s
    } else if d == 6 {
        let s = "6";
        proof {
            reveal_strlit("6");
            assert(s@ =~= seq![spec_digit_char(6)]);
        }
        s
    } else if d == 7 {
        let s = "7";
        proof {
            reveal_strlit("7");
            assert(s@ =~= seq![spec_digit_char(7)]);
        }
        s
    } else if d == 8 {
        let s = "8";
        proof {
            reveal_strlit("8");
            assert(s@ =~= seq![spec_digit_char(8)]);
        }
        s
    } else {
        let s = "9";
        proof {
            reveal_strlit("9");
            assert(s@ =~= seq![spec_digit_char(9)]);
        }
        s
    }
}

/// Renders an unsigned number in decimal.
pub fn decimal_u64(n: u64) -> (r: String)
    ensures
        r@ == spec_decimal(n as nat),
    decreases n,
{
    if n < 10 {
        String::from_str(digit_str(n))
    } else {
        let mut s = decimal_u64(n / 10);
        s.append(digit_str(n % 10));
        s
    }
}

proof fn lemma_digit_char_injective(a: nat, b: nat)
    requires
        a < 10,
        b < 10,
        spec_digit_char(a) == spec_digit_char(b),
    ensures
        a == b,
{
}

proof fn lemma_decimal_len(n: nat)
    ensures
        spec_decimal(n).len() >= 1,
        n < 10 <==> spec_decimal(n).len() == 1,
    decreases n,
{
    if n >= 10 {
        lemma_decimal_len(n / 10);
    }
}

/// Decimal rendering is faithful: equal renderings denote equal numbers.
/// In particular a fully declared class's payload text pins the recorded
/// byte size exactly.
pub proof fn lemma_decimal_injective(a: nat, b: nat)
    requires
        spec_decimal(a) == spec_decimal(b),
    ensures
        a == b,
    decreases a,
{
    lemma_decimal_len(a);
    lemma_decimal_len(b);
    if a < 10 && b < 10 {
        assert(spec_decimal(a)[0] == spec_digit_char(a));
        assert(spec_decimal(b)[0] == spec_digit_char(b));
        lemma_digit_char_injective(a, b);
    } else if a >= 10 && b >= 10 {
        let pa = spec_decimal(a / 10);
        let pb = spec_decimal(b / 10);
        assert(spec_decimal(a).last() == spec_digit_char(a % 10));
        assert(spec_decimal(b).last() == spec_digit_char(b % 10));
        lemma_digit_char_injective(a % 10, b % 10);
        assert(spec_decimal(a).drop_last() =~= pa);
        assert(spec_decimal(b).drop_last() =~= pb);
        lemma_decimal_injective(a / 10, b / 10);
        assert(a == 10 * (a / 10) + (a % 10)) by {
            vstd::arithmetic::div_mod::lemma_fundamental_div_mod(a as int, 10);
        }
        assert(b == 10 * (b / 10) + (b % 10)) by {
            vstd::arithmetic::div_mod::lemma_fundamental_div_mod(b as int, 10);
        }
    }
}

/// The decimal rendering of a (possibly negative) integer.
pub open spec fn spec_decimal_int(v: int) -> Seq<char> {
    if v < 0 {
        seq!['-'] + spec_decimal((-v) as nat)
    } else {
        spec_decimal(v as nat)
    }
}

/// Renders a signed number in decimal, with a leading minus sign when negative.
pub fn decimal_i64(v: i64) -> (r: String)
    ensures
        r@ == spec_decimal_int(v as int),
{
    if v >= 0 {
        decimal_u64(v as u64)
    } else {
        let wide: i128 = -(v as i128);
        let magnitude: u64 = wide as u64;
        assert(magnitude as int == -(v as int));
        let mut s = String::from_str("-");
        let rest = decimal_u64(magnitude);
        s.append(rest.as_str());
        proof {
            reveal_strlit("-");
            assert(s@ =~= spec_decimal_int(v as int));
        }
        s
    }
}

/// ASCII upper-casing of one character: letters `a`-`z` are mapped to
/// `A`-`Z`; every other character is unchanged.
pub open spec fn spec_upper_char(c: char) -> char {
    if 97 <= c as u32 && c as u32 <= 122 {
        ((c as u32 - 32) as u8) as char
    } else {
        c
    }
}

/// ASCII upper-casing of a whole character sequence.
pub open spec fn spec_upper(s: Seq<char>) -> Seq<char> {
    s.map_values(|c: char| spec_upper_char(c))
}

/// Relies on str::to_ascii_uppercase: ASCII letters `a`-`z` are mapped to
/// `A`-`Z`, all other characters are returned unchanged.
#[verifier::external_body]
pub fn ascii_upper(s: &str) -> (r: String)
    ensures
        r@ == spec_upper(s@),
{
    s.to_ascii_uppercase()
}

/// A run of `n` pointer stars.
pub open spec fn spec_stars(n: nat) -> Seq<char>
    decreases n,
{
    if n == 0 {
        Seq::<char>::empty()
    } else {
        spec_stars((n - 1) as nat) + seq!['*']
    }
}

/// Renders a run of pointer stars.
pub fn stars(n: u64) -> (r: String)
    ensures
        r@ == spec_stars(n as nat),
    decreases n,
{
    if n == 0 {
        let r = String::new();
        assert(r@ =~= spec_stars(0));
        r
    } else {
        let mut r = stars(n - 1);
        r.append("*");
        proof {
            reveal_strlit("*");
            assert("*"@ =~= seq!['*']);
        }
        r
    }
}

/// The given sequences joined with the separator between neighbours.
pub open spec fn spec_join(items: Seq<Seq<char>>, sep: Seq<char>) -> Seq<char>
    decreases items.len(),
{
    if items.len() == 0 {
        Seq::<char>::empty()
    } else if items.len() == 1 {
        items[0]
    } else {
        items[0] + sep + spec_join(items.drop_first(), sep)
    }
}

/// Joins strings with a separator; the result is empty for an empty list.
pub fn join_strings(items: &Vec<String>, sep: &str) -> (r: String)
    ensures
        r@ == spec_join(items@.map_values(|s: String| s@), sep@),
{
    let ghost views = items@.map_values(|s: String| s@);
    let mut r = String::new();
    if items.len() == 0 {
        assert(r@ =~= spec_join(views, sep@));
        return r;
    }
    let mut i: usize = 0;
    while i < items.len()
        invariant
            0 < items.len(),
            i <= items.len(),
            views == items@.map_values(|s: String| s@),
            i == 0 ==> r@ == Seq::<char>::empty(),
            i > 0 ==> r@ == spec_join(views.take(i as int), sep@) + if i < items.len() {
                sep@
            } else {
                Seq::<char>::empty()
            },
        decreases items.len() - i,
    {
        r.append(items[i].as_str());
        i = i + 1;
        if i < items.len() {
            r.append(sep);
        }
        proof {
            lemma_join_take_step(views, sep@, i as int);
            if i < items.len() {
                assert(r@ =~= spec_join(views.take(i as int), sep@) + sep@);
            } else {
                assert(r@ =~= spec_join(views.take(i as int), sep@));
            }
        }
    }
    proof {
        assert(views.take(items.len() as int) =~= views);
    }
    r
}

/// Extending a joined prefix by one more item appends a separator (when the
/// prefix is non-empty) and the item.
proof fn lemma_join_take_step(items: Seq<Seq<char>>, sep: Seq<char>, i: int)
    requires
        1 <= i <= items.len(),
    ensures
        i == 1 ==> spec_join(items.take(1), sep) == items[0],
        i > 1 ==> spec_join(items.take(i), sep) =~= spec_join(items.take(i - 1), sep) + sep
            + items[i - 1],
    decreases i,
{
    if i == 1 {
        assert(items.take(1).len() == 1);
        assert(spec_join(items.take(1), sep) == items.take(1)[0]);
    } else {
        lemma_join_take_step(items.drop_first(), sep, i - 1);
        assert(items.take(i).drop_first() =~= items.drop_first().take(i - 1));
        assert(items.take(i - 1).drop_first() =~= items.drop_first().take(i - 2));
        if i - 1 == 1 {
            assert(spec_join(items.take(i), sep) == items[0] + sep + spec_join(
                items.take(i).drop_first(),
                sep,
            ));
        }
    }
}

} // verus!
