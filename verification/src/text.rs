use vstd::prelude::*;

verus! {

/// Whether two string slices hold the same characters.
pub fn same_text(a: &str, b: &str) -> (same: bool)
    ensures
        same == (a@ == b@),
{
    let left: String = a.to_owned();
    let right: String = b.to_owned();
    left == right
}

/// `owner`, an underscore, then `name`: how a file of one pad is told from
/// the same file of another.
pub open spec fn prefixed(owner: Seq<char>, name: Seq<char>) -> Seq<char> {
    owner + seq!['_'] + name
}

/// Puts `owner` and an underscore in front of `name`.
pub fn prefix_with(owner: &str, name: &str) -> (out: String)
    ensures
        out@ == prefixed(owner@, name@),
{
    let mut out: String = owner.to_owned();
    proof {
        reveal_strlit("_");
    }
    out.append("_");
    out.append(name);
    assert("_"@ =~= seq!['_']);
    out
}

/// The character that writes the decimal digit `d`.
pub open spec fn digit_char(d: nat) -> char
    recommends
        d < 10,
{
    if d == 0 {
        '0'
    } else if d == 1 {
        '1'
    } else if d == 2 {
        '2'
    } else if d == 3 {
        '3'
    } else if d == 4 {
        '4'
    } else if d == 5 {
        '5'
    } else if d == 6 {
        '6'
    } else if d == 7 {
        '7'
    } else if d == 8 {
        '8'
    } else {
        '9'
    }
}

/// `n` in decimal, most significant digit first, without leading zeros.
pub open spec fn decimal(n: nat) -> Seq<char>
    decreases n,
{
    if n < 10 {
        seq![digit_char(n)]
    } else {
        decimal(n / 10).push(digit_char(n % 10))
    }
}

/// `i` in decimal, with a minus sign in front where it is negative.
pub open spec fn signed_decimal(i: int) -> Seq<char> {
    if i < 0 {
        seq!['-'] + decimal((-i) as nat)
    } else {
        decimal(i as nat)
    }
}

fn digit_text(d: u64) -> (text: &'static str)
    requires
        d < 10,
    ensures
        text@ == seq![digit_char(d as nat)],
{
    proof {
        reveal_strlit("0");
        reveal_strlit("1");
        reveal_strlit("2");
        reveal_strlit("3");
        reveal_strlit("4");
        reveal_strlit("5");
        reveal_strlit("6");
        reveal_strlit("7");
        reveal_strlit("8");
        reveal_strlit("9");
    }
    let text = if d == 0 {
        "0"
    } else if d == 1 {
        "1"
    } else if d == 2 {
        "2"
    } else if d == 3 {
        "3"
    } else if d == 4 {
        "4"
    } else if d == 5 {
        "5"
    } else if d == 6 {
        "6"
    } else if d == 7 {
        "7"
    } else if d == 8 {
        "8"
    } else {
        "9"
    };
    assert(text@ =~= seq![digit_char(d as nat)]);
    text
}

/// Writes `n` in decimal.
pub fn decimal_string(n: u64) -> (out: String)
    ensures
        out@ == decimal(n as nat),
{
    let mut out: String = digit_text(n % 10).to_owned();
    let mut rest: u64 = n / 10;
    while rest > 0
        invariant
            decimal(n as nat) == if rest == 0 {
                out@
            } else {
                decimal(rest as nat) + out@
            },
        decreases rest,
    {
        let digit = digit_text(rest % 10);
        let ghost before = out@;
        let mut grown: String = digit.to_owned();
        grown.append(out.as_str());
        out = grown;
        proof {
            let r = rest as nat;
            assert(out@ =~= seq![digit_char(r % 10)] + before);
            if r >= 10 {
                assert(decimal(r) + before =~= decimal(r / 10) + out@);
            } else {
                assert(decimal(r) + before =~= out@);
            }
        }
        rest = rest / 10;
    }
    out
}

/// Writes `i` in decimal, with a minus sign in front where it is negative.
pub fn signed_decimal_string(i: i64) -> (out: String)
    ensures
        out@ == signed_decimal(i as int),
{
    if i < 0 {
        let magnitude: u64 = if i == i64::MIN {
            0x8000_0000_0000_0000u64
        } else {
            (-i) as u64
        };
        proof {
            reveal_strlit("-");
        }
        let mut out: String = "-".to_owned();
        let digits = decimal_string(magnitude);
        out.append(digits.as_str());
        assert(out@ =~= seq!['-'] + decimal((-i) as nat));
        out
    } else {
        decimal_string(i as u64)
    }
}

/// The placeholder that a manifest's segment template puts where the
/// segment number goes.
pub open spec fn number_placeholder() -> Seq<char> {
    seq!['$', 'N', 'u', 'm', 'b', 'e', 'r', '$']
}

/// `template` with every `%d` replaced by `$Number$`, matching from the left
/// and never inside what an earlier match consumed.
pub open spec fn with_number_placeholder(template: Seq<char>) -> Seq<char>
    decreases template.len(),
{
    if template.len() == 0 {
        template
    } else if template.len() >= 2 && template[0] == '%' && template[1] == 'd' {
        number_placeholder() + with_number_placeholder(template.skip(2))
    } else {
        seq![template[0]] + with_number_placeholder(template.skip(1))
    }
}

/// Rewrites a printf-style segment template into the manifest's notation.
pub fn number_template(template: &str) -> (out: String)
    ensures
        out@ == with_number_placeholder(template@),
{
    let n = template.unicode_len();
    let mut out = String::new();
    let mut i: usize = 0;
    proof {
        reveal_strlit("$Number$");
        assert("$Number$"@ =~= number_placeholder());
        assert(template@.skip(0) =~= template@);
    }
    while i < n
        invariant
            n == template@.len(),
            i <= n,
            "$Number$"@ == number_placeholder(),
            out@ + with_number_placeholder(template@.skip(i as int)) == with_number_placeholder(
                template@,
            ),
        decreases n - i,
    {
        let ghost rest = template@.skip(i as int);
        let ghost before = out@;
        let c = template.get_char(i);
        let is_placeholder = c == '%' && i + 1 < n && template.get_char(i + 1) == 'd';
        if is_placeholder {
            out.append("$Number$");
            proof {
                assert(rest.skip(2) =~= template@.skip(i + 2));
                assert(out@ + with_number_placeholder(rest.skip(2)) =~= before
                    + with_number_placeholder(rest));
            }
            i = i + 2;
        } else {
            out.append(template.substring_char(i, i + 1));
            proof {
                assert(template@.subrange(i as int, i + 1) =~= seq![rest[0]]);
                assert(rest.skip(1) =~= template@.skip(i + 1));
                assert(out@ + with_number_placeholder(rest.skip(1)) =~= before
                    + with_number_placeholder(rest));
            }
            i = i + 1;
        }
    }
    assert(with_number_placeholder(template@.skip(n as int)) =~= Seq::<char>::empty());
    assert(out@ + Seq::<char>::empty() =~= out@);
    out
}

/// Whether `c` is one of the ten decimal digits.
pub open spec fn is_digit(c: char) -> bool {
    '0' <= c && c <= '9'
}

/// The digit characters differ from one another.
pub proof fn lemma_digit_char_injective(a: nat, b: nat)
    requires
        a < 10,
        b < 10,
        digit_char(a) == digit_char(b),
    ensures
        a == b,
{
}

/// No two numbers are written alike.
pub proof fn lemma_decimal_injective(a: nat, b: nat)
    requires
        decimal(a) == decimal(b),
    ensures
        a == b,
    decreases a,
{
    if a < 10 && b < 10 {
        assert(decimal(a)[0] == digit_char(a));
        assert(decimal(b)[0] == digit_char(b));
        lemma_digit_char_injective(a, b);
    } else if a < 10 {
        assert(decimal(b).len() == decimal(b / 10).len() + 1);
        lemma_decimal_not_empty(b / 10);
    } else if b < 10 {
        assert(decimal(a).len() == decimal(a / 10).len() + 1);
        lemma_decimal_not_empty(a / 10);
    } else {
        let front_a = decimal(a / 10);
        let front_b = decimal(b / 10);
        assert(decimal(a).last() == digit_char(a % 10));
        assert(decimal(b).last() == digit_char(b % 10));
        lemma_digit_char_injective(a % 10, b % 10);
        assert(decimal(a).drop_last() =~= front_a);
        assert(decimal(b).drop_last() =~= front_b);
        lemma_decimal_injective(a / 10, b / 10);
    }
}

/// Every number is written with a digit at least.
pub proof fn lemma_decimal_not_empty(n: nat)
    ensures
        decimal(n).len() >= 1,
    decreases n,
{
    if n >= 10 {
        lemma_decimal_not_empty(n / 10);
    }
}

} // verus!
