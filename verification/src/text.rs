//! Building texts from parts.
use vstd::prelude::*;

verus! {

/// The concatenation of a list of texts.
pub open spec fn joined(parts: Seq<String>) -> Seq<char> {
    parts.fold_left(Seq::<char>::empty(), |acc: Seq<char>, s: String| acc + s@)
}

/// `a + b + c + ...` of texts.
pub fn join(parts: &Vec<String>) -> (r: String)
    ensures
        r@ == joined(parts@),
{
    let mut out = String::new();
    let mut i: usize = 0;
    while i < parts.len()
        invariant
            i <= parts.len(),
            out@ == parts@.take(i as int).fold_left(
                Seq::<char>::empty(),
                |acc: Seq<char>, s: String| acc + s@,
            ),
        decreases parts.len() - i,
    {
        proof {
            assert(parts@.take(i + 1).drop_last() == parts@.take(i as int));
        }
        out.append(parts[i].as_str());
        i = i + 1;
    }
    proof {
        assert(parts@.take(i as int) == parts@);
    }
    out
}


/// Text of a single decimal digit.
pub open spec fn digit_text(d: int) -> Seq<char> {
    if d == 0 {
        "0"@
    } else if d == 1 {
        "1"@
    } else if d == 2 {
        "2"@
    } else if d == 3 {
        "3"@
    } else if d == 4 {
        "4"@
    } else if d == 5 {
        "5"@
    } else if d == 6 {
        "6"@
    } else if d == 7 {
        "7"@
    } else if d == 8 {
        "8"@
    } else {
        "9"@
    }
}

/// Decimal digits of a natural number, as `{}` formats it.
pub open spec fn nat_digits(n: nat) -> Seq<char>
    decreases n,
{
    if n < 10 {
        digit_text(n as int)
    } else {
        nat_digits(n / 10) + digit_text((n % 10) as int)
    }
}

/// Text of a signed number, as `{}` formats it.
pub open spec fn int_digits(i: int) -> Seq<char> {
    if i < 0 {
        "-"@ + nat_digits((-i) as nat)
    } else {
        nat_digits(i as nat)
    }
}

fn digit_str(d: u64) -> (r: &'static str)
    requires
        d < 10,
    ensures
        r@ == digit_text(d as int),
{
    if d == 0 {
        "0"
    } else if d == 1 {
        "1"
    } else if d == 2 {
        "2"
    } else if d == 3 {
        "3"
    } else if d == 4 {
        "4"
    } else if d == 5 {
        "5"
    } else if d == 6 {
        "6"
    } else if d == 7 {
        "7"
    } else if d == 8 {
        "8"
    } else {
        "9"
    }
}

/// Decimal text of a natural number.
pub fn nat_text(n: u64) -> (r: String)
    ensures
        r@ == nat_digits(n as nat),
    decreases n,
{
    if n < 10 {
        digit_str(n).to_owned()
    } else {
        let mut s = nat_text(n / 10);
        s.append(digit_str(n % 10));
        s
    }
}

/// Decimal text of a signed number.
pub fn int_text(i: i64) -> (r: String)
    ensures
        r@ == int_digits(i as int),
{
    if i < 0 {
        let mut s = "-".to_owned();
        let m: u64 = if i == i64::MIN {
            9223372036854775808u64
        } else {
            (-i) as u64
        };
        s.append(nat_text(m).as_str());
        s
    } else {
        nat_text(i as u64)
    }
}

/// Whether two texts are equal.
pub fn str_eq(a: &str, b: &str) -> (r: bool)
    ensures
        r == (a@ == b@),
{
    let x = a.to_owned();
    let y = b.to_owned();
    x == y
}

/// Texts joined with a separator between each two.
pub open spec fn joined_sep(parts: Seq<String>, sep: Seq<char>) -> Seq<char>
    decreases parts.len(),
{
    if parts.len() == 0 {
        Seq::empty()
    } else if parts.len() == 1 {
        parts[0]@
    } else {
        joined_sep(parts.drop_last(), sep) + sep + parts.last()@
    }
}

/// Texts joined with a separator, as `join` on a list of strings does it.
pub fn join_sep(parts: &Vec<String>, sep: &str) -> (r: String)
    ensures
        r@ == joined_sep(parts@, sep@),
{
    let mut out = String::new();
    let mut i: usize = 0;
    while i < parts.len()
        invariant
            i <= parts.len(),
            out@ == joined_sep(parts@.take(i as int), sep@),
        decreases parts.len() - i,
    {
        proof {
            assert(parts@.take(i + 1).drop_last() == parts@.take(i as int));
        }
        if i > 0 {
            out.append(sep);
        }
        out.append(parts[i].as_str());
        i = i + 1;
    }
    proof {
        assert(parts@.take(i as int) == parts@);
    }
    out
}

/// The lower-case form of a text, as `str::to_lowercase` gives it.
pub uninterp spec fn text_lowercase(s: Seq<char>) -> Seq<char>;

/// Calls `str::to_lowercase`; claims the result is the named lower-case form.
#[verifier::external_body]
pub(crate) fn lowercase(s: &str) -> (r: String)
    ensures
        r@ == text_lowercase(s@),
{
    s.to_lowercase()
}

/// The upper-case form of a text, as `str::to_uppercase` gives it.
pub uninterp spec fn text_uppercase(s: Seq<char>) -> Seq<char>;

/// Calls `str::to_uppercase`; claims the result is the named upper-case form.
#[verifier::external_body]
pub(crate) fn uppercase(s: &str) -> (r: String)
    ensures
        r@ == text_uppercase(s@),
{
    s.to_uppercase()
}

/// The text `{:?}` writes for a list of strings.
pub uninterp spec fn debug_strings(v: Seq<Seq<char>>) -> Seq<char>;

/// Formats a list of strings with `{:?}`; claims the text is the named one
/// for the strings' texts.
#[verifier::external_body]
pub(crate) fn debug_list(v: &Vec<String>) -> (r: String)
    ensures
        r@ == debug_strings(v@.map_values(|s: String| s@)),
{
    format!("{:?}", v)
}

/// Whether a text is one or more ASCII digits.
pub open spec fn all_digits(s: Seq<char>) -> bool {
    s.len() > 0 && forall|i: int| 0 <= i < s.len() ==> 48 <= #[trigger] (s[i] as u32) <= 57
}

/// The value of a text of ASCII digits, read in base 10.
pub open spec fn digits_value(s: Seq<char>) -> nat
    decreases s.len(),
{
    if s.len() == 0 {
        0
    } else {
        digits_value(s.drop_last()) * 10 + ((s.last() as u32) - 48) as nat
    }
}

/// The number `str::parse::<u64>` reads from a text: an optional `+`
/// followed by one or more ASCII digits, whose value fits in a `u64`;
/// anything else (signs alone, white space, other characters) is no number.
pub open spec fn u64_parsed(s: Seq<char>) -> Option<u64> {
    let d = if s.len() > 0 && s[0] == '+' {
        s.drop_first()
    } else {
        s
    };
    if all_digits(d) && digits_value(d) <= u64::MAX {
        Some(digits_value(d) as u64)
    } else {
        None
    }
}

/// Calls `str::parse::<u64>`; claims the result is the reading that its
/// documentation describes (see `u64_parsed`).
#[verifier::external_body]
pub(crate) fn parse_u64(s: &str) -> (r: Option<u64>)
    ensures
        r == u64_parsed(s@),
{
    s.parse::<u64>().ok()
}

/// The characters of a text.
pub fn chars_of(s: &str) -> (r: Vec<char>)
    ensures
        r@ == s@,
{
    let mut r: Vec<char> = Vec::new();
    proof {
        broadcast use vstd::string::axiom_spec_iter;
    }
    for c in it: s.chars()
        invariant
            it.seq() == s@,
            r@ == s@.take(it.index() as int),
    {
        r.push(c);
    }
    proof {
        assert(r@ =~= s@);
    }
    r
}

/// Collects characters into a text; claims the text holds exactly them.
#[verifier::external_body]
pub(crate) fn text_of_chars(cs: &Vec<char>) -> (r: String)
    ensures
        r@ == cs@,
{
    cs.iter().collect()
}

/// Whether `p` occurs in `s`.
pub open spec fn has_sub(s: Seq<char>, p: Seq<char>) -> bool {
    exists|i: int| 0 <= i && i + p.len() <= s.len() && #[trigger] s.subrange(i, i + p.len()) == p
}

/// Whether `p` occurs in `s`.
pub fn contains_text(s: &str, p: &str) -> (r: bool)
    ensures
        r == has_sub(s@, p@),
{
    let cs = chars_of(s);
    let ps = chars_of(p);
    let n = cs.len();
    let m = ps.len();
    if m > n {
        return false;
    }
    let mut i: usize = 0;
    while i <= n - m
        invariant
            m <= n,
            cs@ == s@,
            ps@ == p@,
            n == cs@.len(),
            m == ps@.len(),
            i <= n - m + 1,
            forall|k: int| 0 <= k < i ==> #[trigger] s@.subrange(k, k + m) != p@,
        decreases n - m + 1 - i,
    {
        let mut j: usize = 0;
        let mut same = true;
        while j < m
            invariant
                j <= m,
                i + m <= n,
                cs@ == s@,
                ps@ == p@,
                n == cs@.len(),
                m == ps@.len(),
                same == (forall|t: int| 0 <= t < j ==> cs@[i + t] == ps@[t]),
            decreases m - j,
        {
            if cs[i + j] != ps[j] {
                same = false;
            }
            j = j + 1;
        }
        if same {
            proof {
                assert(s@.subrange(i as int, i + m) =~= p@);
            }
            return true;
        }
        proof {
            assert(s@.subrange(i as int, i + m) != p@) by {
                let t = choose|t: int| 0 <= t < m && cs@[i + t] != ps@[t];
                assert(s@.subrange(i as int, i + m)[t] != p@[t]);
            }
        }
        i = i + 1;
    }
    proof {
        assert forall|k: int| 0 <= k && k + p@.len() <= s@.len() implies #[trigger] s@.subrange(k, k + p@.len()) != p@ by {
            assert(k < i);
        }
    }
    false
}

/// The number `str::parse::<i32>` reads from a text: an optional `+` or
/// `-` followed by one or more ASCII digits, whose signed value fits in an
/// `i32`; anything else is no number.
pub open spec fn i32_parsed(s: Seq<char>) -> Option<i32> {
    let signed = s.len() > 0 && (s[0] == '+' || s[0] == '-');
    let d = if signed {
        s.drop_first()
    } else {
        s
    };
    let v: int = if s.len() > 0 && s[0] == '-' {
        -(digits_value(d) as int)
    } else {
        digits_value(d) as int
    };
    if all_digits(d) && i32::MIN <= v <= i32::MAX {
        Some(v as i32)
    } else {
        None
    }
}

/// Calls `str::parse::<i32>`; claims the result is the reading that its
/// documentation describes (see `i32_parsed`).
#[verifier::external_body]
pub(crate) fn parse_i32(s: &str) -> (r: Option<i32>)
    ensures
        r == i32_parsed(s@),
{
    s.parse::<i32>().ok()
}

/// A text without its leading and trailing white space, as `str::trim`
/// gives it.
pub uninterp spec fn text_trimmed(s: Seq<char>) -> Seq<char>;

/// Calls `str::trim`; claims the result is the named trimmed text.
#[verifier::external_body]
pub(crate) fn trim_text(s: &str) -> (r: String)
    ensures
        r@ == text_trimmed(s@),
{
    s.trim().to_owned()
}

} // verus!
