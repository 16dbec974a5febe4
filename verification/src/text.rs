//! Character-level helpers shared by the parsers and filters.
use vstd::prelude::*;

verus! {

broadcast use vstd::string::group_string_axioms;

/// Copies the characters of `s` into a vector.
pub fn chars_of(s: &str) -> (v: Vec<char>)
    ensures
        v@ == s@,
{
    let mut v: Vec<char> = Vec::new();
    for c in it: s.chars()
        invariant
            v@ == it.seq().take(it.index() as int),
            it.seq() == s@,
    {
        v.push(c);
    }
    v
}

/// Exact comparison of two string slices by their characters.
pub fn str_eq(a: &str, b: &str) -> (r: bool)
    ensures
        r == (a@ == b@),
{
    let x = chars_of(a);
    let y = chars_of(b);
    if x.len() != y.len() {
        return false;
    }
    let mut i: usize = 0;
    while i < x.len()
        invariant
            x@ == a@,
            y@ == b@,
            x.len() == y.len(),
            i <= x.len(),
            forall|j: int| 0 <= j < i ==> x@[j] == y@[j],
        decreases x.len() - i,
    {
        if x[i] != y[i] {
            return false;
        }
        i = i + 1;
    }
    assert(x@ =~= y@);
    true
}

} // verus!

verus! {

/// Whether `c` has the Unicode `White_Space` property, as
/// `char::is_whitespace` decides it: the controls TAB to CR, SPACE, NEL,
/// NO-BREAK SPACE, OGHAM SPACE MARK, the spaces EN QUAD to HAIR SPACE, the
/// line and paragraph separators, NARROW NO-BREAK SPACE, MEDIUM
/// MATHEMATICAL SPACE and IDEOGRAPHIC SPACE.
pub open spec fn is_whitespace(c: char) -> bool {
    let n = c as u32;
    ||| 0x9 <= n <= 0xd
    ||| n == 0x20
    ||| n == 0x85
    ||| n == 0xa0
    ||| n == 0x1680
    ||| 0x2000 <= n <= 0x200a
    ||| n == 0x2028
    ||| n == 0x2029
    ||| n == 0x202f
    ||| n == 0x205f
    ||| n == 0x3000
}

/// Whether `c` is whitespace.
pub fn char_is_whitespace(c: char) -> (r: bool)
    ensures
        r == is_whitespace(c),
{
    let n = c as u32;
    (0x9 <= n && n <= 0xd) || n == 0x20 || n == 0x85 || n == 0xa0 || n == 0x1680 || (0x2000 <= n && n
        <= 0x200a) || n == 0x2028 || n == 0x2029 || n == 0x202f || n == 0x205f || n == 0x3000
}

/// Position of the first `c` in `s`, or `s.len()` when there is none.
pub open spec fn first_index_of(s: Seq<char>, c: char) -> int
    decreases s.len(),
{
    if s.len() == 0 {
        0
    } else if s[0] == c {
        0
    } else {
        1 + first_index_of(s.drop_first(), c)
    }
}

/// `s` without its leading whitespace.
pub open spec fn trim_start(s: Seq<char>) -> Seq<char>
    decreases s.len(),
{
    if s.len() > 0 && is_whitespace(s[0]) {
        trim_start(s.drop_first())
    } else {
        s
    }
}

/// `s` without its trailing whitespace.
pub open spec fn trim_end(s: Seq<char>) -> Seq<char>
    decreases s.len(),
{
    if s.len() > 0 && is_whitespace(s.last()) {
        trim_end(s.drop_last())
    } else {
        s
    }
}

/// `s` without leading and trailing whitespace, as `str::trim` returns it.
pub open spec fn trim(s: Seq<char>) -> Seq<char> {
    trim_end(trim_start(s))
}

/// `first_index_of` is the first position holding `c`.
pub proof fn lemma_first_index_of(s: Seq<char>, c: char, k: int)
    requires
        0 <= k <= s.len(),
        forall|j: int| 0 <= j < k ==> s[j] != c,
        k < s.len() ==> s[k] == c,
    ensures
        first_index_of(s, c) == k,
    decreases k,
{
    if k > 0 {
        lemma_first_index_of(s.drop_first(), c, k - 1);
    }
}

/// The bounds of `first_index_of`.
pub proof fn lemma_first_index_of_bounds(s: Seq<char>, c: char)
    ensures
        0 <= first_index_of(s, c) <= s.len(),
        first_index_of(s, c) < s.len() ==> s[first_index_of(s, c)] == c,
        forall|j: int| 0 <= j < first_index_of(s, c) ==> s[j] != c,
    decreases s.len(),
{
    if s.len() > 0 && s[0] != c {
        lemma_first_index_of_bounds(s.drop_first(), c);
        assert forall|j: int| 0 <= j < first_index_of(s, c) implies s[j] != c by {
            if j > 0 {
                assert(s[j] == s.drop_first()[j - 1]);
            }
        }
    }
}

/// Finds the first `c` in `v[lo..hi]`; returns `hi` when there is none.
pub fn find_char(v: &Vec<char>, lo: usize, hi: usize, c: char) -> (k: usize)
    requires
        lo <= hi <= v.len(),
    ensures
        lo <= k <= hi,
        k - lo == first_index_of(v@.subrange(lo as int, hi as int), c),
{
    let mut k = lo;
    while k < hi
        invariant
            lo <= k <= hi <= v.len(),
            forall|j: int| lo <= j < k ==> v@[j] != c,
        ensures
            lo <= k <= hi,
            forall|j: int| lo <= j < k ==> v@[j] != c,
            k < hi ==> v@[k as int] == c,
        decreases hi - k,
    {
        if v[k] == c {
            break;
        }
        k = k + 1;
    }
    proof {
        lemma_first_index_of(v@.subrange(lo as int, hi as int), c, k - lo);
    }
    k
}

/// Narrows `v[lo..hi]` to its trimmed part `v[a..b]`.
pub fn trim_range(v: &Vec<char>, lo: usize, hi: usize) -> (r: (usize, usize))
    requires
        lo <= hi <= v.len(),
    ensures
        lo <= r.0 <= r.1 <= hi,
        v@.subrange(r.0 as int, r.1 as int) == trim(v@.subrange(lo as int, hi as int)),
{
    let mut a = lo;
    while a < hi && char_is_whitespace(v[a])
        invariant
            lo <= a <= hi <= v.len(),
            trim_start(v@.subrange(lo as int, hi as int)) == trim_start(v@.subrange(a as int, hi as int)),
        decreases hi - a,
    {
        assert(v@.subrange(a as int, hi as int).drop_first() =~= v@.subrange(a + 1, hi as int));
        a = a + 1;
    }
    assert(trim_start(v@.subrange(a as int, hi as int)) == v@.subrange(a as int, hi as int));
    let mut b = hi;
    while b > a && char_is_whitespace(v[b - 1])
        invariant
            lo <= a <= b <= hi <= v.len(),
            trim_end(v@.subrange(a as int, hi as int)) == trim_end(v@.subrange(a as int, b as int)),
        decreases b - a,
    {
        assert(v@.subrange(a as int, b as int).drop_last() =~= v@.subrange(a as int, b - 1));
        b = b - 1;
    }
    (a, b)
}

} // verus!

verus! {

/// Whether `c` is an ASCII decimal digit.
pub open spec fn is_digit(c: char) -> bool {
    '0' <= c && c <= '9'
}

/// Every character of `s` is a decimal digit.
pub open spec fn all_digits(s: Seq<char>) -> bool {
    forall|i: int| 0 <= i < s.len() ==> is_digit(#[trigger] s[i])
}

/// The value of a string of decimal digits.
pub open spec fn digits_value(s: Seq<char>) -> int
    decreases s.len(),
{
    if s.len() == 0 {
        0
    } else {
        digits_value(s.drop_last()) * 10 + ((s.last() as int) - ('0' as int))
    }
}

/// Ten to the power `n`.
pub open spec fn pow10(n: nat) -> int
    decreases n,
{
    if n == 0 {
        1
    } else {
        10 * pow10((n - 1) as nat)
    }
}

/// Powers of ten grow with the exponent.
pub proof fn lemma_pow10_mono(a: nat, b: nat)
    requires
        a <= b,
    ensures
        1 <= pow10(a) <= pow10(b),
    decreases b,
{
    if b > a {
        lemma_pow10_mono(a, (b - 1) as nat);
    } else if a > 0 {
        lemma_pow10_mono((a - 1) as nat, (a - 1) as nat);
    }
}

/// Reads the digits `v[lo..hi]` as a number. At most eighteen digits are
/// accepted so that the value fits in an `i64`.
pub fn digits_to_int(v: &Vec<char>, lo: usize, hi: usize) -> (r: i64)
    requires
        lo <= hi <= v.len(),
        hi - lo <= 18,
        all_digits(v@.subrange(lo as int, hi as int)),
    ensures
        r == digits_value(v@.subrange(lo as int, hi as int)),
        0 <= r < pow10((hi - lo) as nat),
{
    let mut val: i64 = 0;
    let mut j = lo;
    proof {
        assert(v@.subrange(lo as int, lo as int) =~= Seq::<char>::empty());
        lemma_pow10_mono((hi - lo) as nat, 18);
        assert(pow10(18) == 1000000000000000000) by { reveal_with_fuel(pow10, 19); }
    }
    while j < hi
        invariant
            lo <= j <= hi <= v.len(),
            hi - lo <= 18,
            pow10((hi - lo) as nat) <= 1000000000000000000,
            all_digits(v@.subrange(lo as int, hi as int)),
            val == digits_value(v@.subrange(lo as int, j as int)),
            0 <= val < pow10((j - lo) as nat),
        decreases hi - j,
    {
        let c = v[j];
        assert(v@.subrange(lo as int, hi as int)[j - lo] == c);
        assert(is_digit(c));
        proof {
            lemma_pow10_mono(((j + 1) - lo) as nat, (hi - lo) as nat);
        }
        let d = (c as u32 - '0' as u32) as i64;
        val = val * 10 + d;
        assert(v@.subrange(lo as int, j + 1).drop_last() =~= v@.subrange(lo as int, j as int));
        j = j + 1;
    }
    val
}

/// The largest time, in milliseconds, that a timestamp keeps (about 4.75
/// million years, as large as a minutes-and-seconds sum of two such times
/// still fits an `i64`); larger ones, and the infinite ones, are held at it.
pub const MAX_STAMP_MILLIS: i64 = 150_000_000_000_000_000;

/// A bound on exponents beyond which every timestamp is either held at
/// `MAX_STAMP_MILLIS` or is zero, whatever its digits.
pub const EXPONENT_BOUND: i128 = 100_000_000_000_000_000_000;

/// Position of the first exponent marker (`e` or `E`) in `s`, or `s.len()`.
pub open spec fn exp_marker(s: Seq<char>) -> int {
    let a = first_index_of(s, 'e');
    let b = first_index_of(s, 'E');
    if a <= b { a } else { b }
}

/// The value of an exponent `[+|-]digits` (at least one digit).
pub open spec fn exponent_value(t: Seq<char>) -> Option<int> {
    let signed = t.len() > 0 && (t[0] == '+' || t[0] == '-');
    let negative = t.len() > 0 && t[0] == '-';
    let ds = if signed { t.drop_first() } else { t };
    if ds.len() == 0 || !all_digits(ds) {
        None
    } else {
        Some(if negative { -digits_value(ds) } else { digits_value(ds) })
    }
}

/// `n` times ten to the power `k`, truncated toward zero.
pub open spec fn scaled(n: int, k: int) -> int {
    if k >= 0 {
        n * pow10(k as nat)
    } else {
        n / pow10((-k) as nat)
    }
}

/// `s` spells the word `lower` (whose capitals are `upper`), each letter in
/// either case.
pub open spec fn spells(s: Seq<char>, lower: Seq<char>, upper: Seq<char>) -> bool {
    s.len() == lower.len() && forall|i: int| 0 <= i < s.len() ==> s[i] == lower[i] || s[i] == upper[i]
}

/// A number as `str::parse::<f32>` reads it, in thousandths, truncated
/// toward zero and held within `MAX_STAMP_MILLIS` on either side: an
/// optional sign, then either digits with at most one decimal point (at
/// least one digit in all) followed optionally by `e` or `E`, an optional
/// sign and at least one digit; or the words `inf` or `infinity` (held at
/// the bound, with the sign); or `nan` (in any case), which comes after
/// every other time and is kept as the bound. `None` for anything else.
pub open spec fn decimal_millis(s: Seq<char>) -> Option<int> {
    let signed = s.len() > 0 && (s[0] == '+' || s[0] == '-');
    let negative = s.len() > 0 && s[0] == '-';
    let body = if signed { s.drop_first() } else { s };
    if spells(body, "inf"@, "INF"@) || spells(body, "infinity"@, "INFINITY"@) {
        Some(if negative { -MAX_STAMP_MILLIS } else { MAX_STAMP_MILLIS as int })
    } else if spells(body, "nan"@, "NAN"@) {
        Some(MAX_STAMP_MILLIS as int)
    } else {
        finite_millis(body, negative)
    }
}

/// The finite form of `decimal_millis`, for the text after the sign.
pub open spec fn finite_millis(body: Seq<char>, negative: bool) -> Option<int> {
    let x = exp_marker(body);
    let mant = body.subrange(0, x);
    let e = if x < body.len() { exponent_value(body.subrange(x + 1, body.len() as int)) } else { Some(0) };
    let d = first_index_of(mant, '.');
    let ip = mant.subrange(0, d);
    let fp = if d < mant.len() { mant.subrange(d + 1, mant.len() as int) } else { Seq::<char>::empty() };
    if !all_digits(ip) || !all_digits(fp) || ip.len() + fp.len() == 0 || e is None {
        None
    } else {
        let v = scaled(digits_value(ip + fp), e->0 + 3 - fp.len());
        let m = if v > MAX_STAMP_MILLIS { MAX_STAMP_MILLIS as int } else { v };
        Some(if negative { -m } else { m })
    }
}

/// Digits written after other digits: the first ones count in higher
/// powers of ten.
pub proof fn lemma_digits_concat(a: Seq<char>, b: Seq<char>)
    ensures
        digits_value(a + b) == digits_value(a) * pow10(b.len()) + digits_value(b),
    decreases b.len(),
{
    if b.len() == 0 {
        assert(a + b =~= a);
    } else {
        let b1 = b.drop_last();
        assert((a + b).drop_last() =~= a + b1);
        assert((a + b).last() == b.last());
        lemma_digits_concat(a, b1);
        let x = digits_value(a);
        let p = pow10(b1.len());
        let y = digits_value(b1);
        assert((x * p + y) * 10 == x * (10 * p) + y * 10) by (nonlinear_arith);
    }
}

/// A string of `n` digits is worth less than ten to the `n`.
pub proof fn lemma_digits_bound(s: Seq<char>)
    requires
        all_digits(s),
    ensures
        0 <= digits_value(s) < pow10(s.len()),
    decreases s.len(),
{
    if s.len() > 0 {
        let s1 = s.drop_last();
        assert forall|i: int| 0 <= i < s1.len() implies is_digit(#[trigger] s1[i]) by {
            assert(s1[i] == s[i]);
        }
        assert(is_digit(s[s.len() - 1]));
        lemma_digits_bound(s1);
    }
}

/// Zeros are worth nothing.
pub proof fn lemma_zeros_value(s: Seq<char>)
    requires
        forall|i: int| 0 <= i < s.len() ==> s[i] == '0',
    ensures
        digits_value(s) == 0,
    decreases s.len(),
{
    if s.len() > 0 {
        let s1 = s.drop_last();
        assert forall|i: int| 0 <= i < s1.len() implies s1[i] == '0' by {
            assert(s1[i] == s[i]);
        }
        lemma_zeros_value(s1);
    }
}

/// Leading zeros do not change the value.
pub proof fn lemma_leading_zeros(s: Seq<char>, z: int)
    requires
        0 <= z <= s.len(),
        forall|i: int| 0 <= i < z ==> s[i] == '0',
    ensures
        digits_value(s) == digits_value(s.subrange(z, s.len() as int)),
{
    let a = s.subrange(0, z);
    let b = s.subrange(z, s.len() as int);
    assert(s =~= a + b);
    assert forall|i: int| 0 <= i < a.len() implies a[i] == '0' by {
        assert(a[i] == s[i]);
    }
    lemma_zeros_value(a);
    lemma_digits_concat(a, b);
}

/// Powers of ten multiply by adding exponents.
pub proof fn lemma_pow10_add(a: nat, b: nat)
    ensures
        pow10(a + b) == pow10(a) * pow10(b),
    decreases b,
{
    if b > 0 {
        lemma_pow10_add(a, (b - 1) as nat);
        let p = pow10(a);
        let q = pow10((b - 1) as nat);
        assert(10 * (p * q) == p * (10 * q)) by (nonlinear_arith);
    }
}

/// Digits without a leading zero: `n` of them are worth at least ten to the
/// `n - 1`, and dropping the last `j` divides by ten to the `j`.
pub proof fn lemma_digits_shape(d: Seq<char>, j: nat)
    requires
        all_digits(d),
        d.len() > 0,
        d[0] != '0',
        j <= d.len(),
    ensures
        digits_value(d) >= pow10((d.len() - 1) as nat),
        digits_value(d) / pow10(j) == digits_value(d.take(d.len() - j)),
{
    let n = d.len();
    let a = d.take(1);
    let b = d.skip(1);
    assert(d =~= a + b);
    lemma_digits_concat(a, b);
    assert(a.drop_last() =~= Seq::<char>::empty());
    assert(a.last() == d[0]);
    assert(is_digit(d[0]));
    assert(digits_value(a.drop_last()) == 0);
    assert(d[0] as int - '0' as int >= 1);
    assert(digits_value(a) == digits_value(a.drop_last()) * 10 + (a.last() as int - '0' as int));
    assert(digits_value(a) >= 1);
    assert forall|i: int| 0 <= i < b.len() implies is_digit(#[trigger] b[i]) by {
        assert(b[i] == d[i + 1]);
    }
    lemma_digits_bound(b);
    lemma_pow10_mono(0, b.len());
    let x = digits_value(a);
    let p = pow10(b.len());
    assert(x * p >= p) by (nonlinear_arith)
        requires
            x >= 1,
            p >= 1,
    ;
    let h = d.take(n - j);
    let t = d.skip(n - j);
    assert(d =~= h + t);
    lemma_digits_concat(h, t);
    assert forall|i: int| 0 <= i < t.len() implies is_digit(#[trigger] t[i]) by {
        assert(t[i] == d[i + n - j]);
    }
    lemma_digits_bound(t);
    lemma_pow10_mono(0, j);
    vstd::arithmetic::div_mod::lemma_fundamental_div_mod_converse(
        digits_value(d),
        pow10(j),
        digits_value(h),
        digits_value(t),
    );
}

/// What scaling does to digits without a leading zero: beyond eighteen
/// places it passes `MAX_STAMP_MILLIS`; at none it leaves zero; otherwise
/// it multiplies, or keeps the leading digits.
pub proof fn lemma_scaled_cases(d: Seq<char>, k: int)
    requires
        all_digits(d),
        d.len() > 0,
        d[0] != '0',
    ensures
        d.len() + k > 18 ==> scaled(digits_value(d), k) > MAX_STAMP_MILLIS,
        d.len() + k <= 0 ==> scaled(digits_value(d), k) == 0,
        0 < d.len() + k <= 18 && k >= 0 ==> scaled(digits_value(d), k) == digits_value(d) * pow10(k as nat)
            && digits_value(d) * pow10(k as nat) < pow10(18),
        0 < d.len() + k <= 18 && k < 0 ==> scaled(digits_value(d), k) == digits_value(d.take(d.len() + k)),
{
    let n = d.len();
    let v = digits_value(d);
    lemma_digits_bound(d);
    assert(pow10(18) == 1000000000000000000) by {
        reveal_with_fuel(pow10, 19);
    }
    if k >= 0 {
        lemma_digits_shape(d, 0);
        let p = pow10(k as nat);
        lemma_pow10_mono(0, k as nat);
        lemma_pow10_add((n - 1) as nat, k as nat);
        lemma_pow10_add(n as nat, k as nat);
        let lo = pow10((n - 1) as nat);
        let hi = pow10(n as nat);
        assert(v * p >= lo * p && v * p < hi * p) by (nonlinear_arith)
            requires
                lo <= v < hi,
                p >= 1,
        ;
        if n + k > 18 {
            lemma_pow10_mono(18, (n - 1 + k) as nat);
        } else {
            lemma_pow10_mono((n + k) as nat, 18);
        }
    } else {
        let j = (-k) as nat;
        if j >= n {
            lemma_pow10_mono(n as nat, j);
            vstd::arithmetic::div_mod::lemma_fundamental_div_mod_converse(v, pow10(j), 0, v);
        } else {
            lemma_digits_shape(d, j);
            if n + k > 18 {
                let h = d.take(n - j);
                assert forall|i: int| 0 <= i < h.len() implies is_digit(#[trigger] h[i]) by {
                    assert(h[i] == d[i]);
                }
                lemma_digits_shape(h, 0);
                lemma_pow10_mono(18, (h.len() - 1) as nat);
            }
        }
    }
}

/// `e` held within `EXPONENT_BOUND` on either side.
pub open spec fn bounded_exponent(e: int) -> int {
    if e > EXPONENT_BOUND {
        EXPONENT_BOUND as int
    } else if e < -EXPONENT_BOUND {
        -EXPONENT_BOUND
    } else {
        e
    }
}

/// Parses an exponent `v[lo..hi]` (see `exponent_value`), held within
/// `EXPONENT_BOUND`.
fn parse_exponent(v: &Vec<char>, lo: usize, hi: usize) -> (r: Option<i128>)
    requires
        lo <= hi <= v.len(),
    ensures
        match exponent_value(v@.subrange(lo as int, hi as int)) {
            Some(e) => r == Some(bounded_exponent(e) as i128),
            None => r is None,
        },
{
    let ghost t = v@.subrange(lo as int, hi as int);
    let signed = lo < hi && (v[lo] == '+' || v[lo] == '-');
    let negative = lo < hi && v[lo] == '-';
    let start = if signed { lo + 1 } else { lo };
    proof {
        let ds = if signed { t.drop_first() } else { t };
        assert(ds =~= v@.subrange(start as int, hi as int));
    }
    if start == hi || !range_all_digits(v, start, hi) {
        return None;
    }
    let mut acc: i128 = 0;
    let mut j = start;
    proof {
        assert(v@.subrange(start as int, start as int) =~= Seq::<char>::empty());
    }
    while j < hi
        invariant
            start <= j <= hi <= v.len(),
            all_digits(v@.subrange(start as int, hi as int)),
            0 <= acc <= EXPONENT_BOUND,
            digits_value(v@.subrange(start as int, j as int)) >= 0,
            acc == (if digits_value(v@.subrange(start as int, j as int)) > EXPONENT_BOUND {
                EXPONENT_BOUND as int
            } else {
                digits_value(v@.subrange(start as int, j as int))
            }),
        decreases hi - j,
    {
        let c = v[j];
        assert(v@.subrange(start as int, hi as int)[j - start] == c);
        let d = (c as u32 - '0' as u32) as i128;
        assert(v@.subrange(start as int, j + 1).drop_last() =~= v@.subrange(start as int, j as int));
        assert(v@.subrange(start as int, j + 1).last() == c);
        assert(is_digit(c));
        if acc < EXPONENT_BOUND {
            let n = acc * 10 + d;
            acc = if n > EXPONENT_BOUND { EXPONENT_BOUND } else { n };
        }
        j = j + 1;
    }
    if negative {
        Some(-acc)
    } else {
        Some(acc)
    }
}

/// Checks that `v[lo..hi]` is all digits.
pub fn range_all_digits(v: &Vec<char>, lo: usize, hi: usize) -> (r: bool)
    requires
        lo <= hi <= v.len(),
    ensures
        r == all_digits(v@.subrange(lo as int, hi as int)),
{
    let mut j = lo;
    while j < hi
        invariant
            lo <= j <= hi <= v.len(),
            forall|i: int| lo <= i < j ==> is_digit(v@[i]),
        decreases hi - j,
    {
        if !('0' <= v[j] && v[j] <= '9') {
            assert(!is_digit(v@.subrange(lo as int, hi as int)[j - lo]));
            return false;
        }
        j = j + 1;
    }
    assert forall|i: int| 0 <= i < hi - lo implies is_digit(#[trigger] v@.subrange(lo as int, hi as int)[i]) by {
        assert(v@.subrange(lo as int, hi as int)[i] == v@[lo + i]);
    }
    true
}

/// Whether `v[lo..hi]` spells the word `lower` (capitals `upper`), each
/// letter in either case.
fn range_spells(v: &Vec<char>, lo: usize, hi: usize, lower: &str, upper: &str) -> (r: bool)
    requires
        lo <= hi <= v.len(),
        lower@.len() == upper@.len(),
    ensures
        r == spells(v@.subrange(lo as int, hi as int), lower@, upper@),
{
    let lw = chars_of(lower);
    let up = chars_of(upper);
    if hi - lo != lw.len() {
        return false;
    }
    let mut i: usize = 0;
    while i < lw.len()
        invariant
            lo <= hi <= v.len(),
            hi - lo == lw@.len(),
            lw@ == lower@,
            up@ == upper@,
            lw@.len() == up@.len(),
            i <= lw@.len(),
            forall|j: int| 0 <= j < i ==> v@[lo + j] == lw@[j] || v@[lo + j] == up@[j],
        decreases lw.len() - i,
    {
        if v[lo + i] != lw[i] && v[lo + i] != up[i] {
            assert(v@.subrange(lo as int, hi as int)[i as int] == v@[lo + i]);
            return false;
        }
        i = i + 1;
    }
    assert forall|j: int| 0 <= j < hi - lo implies #[trigger] v@.subrange(lo as int, hi as int)[j] == lower@[j]
        || v@.subrange(lo as int, hi as int)[j] == upper@[j] by {
        assert(v@.subrange(lo as int, hi as int)[j] == v@[lo + j]);
    }
    true
}

/// Copies `v[a..b]` and then `v[c..d]` into one vector.
fn two_ranges(v: &Vec<char>, a: usize, b: usize, c: usize, d: usize) -> (r: Vec<char>)
    requires
        a <= b <= v.len(),
        c <= d <= v.len(),
    ensures
        r@ == v@.subrange(a as int, b as int) + v@.subrange(c as int, d as int),
{
    let mut out: Vec<char> = Vec::new();
    let mut i = a;
    while i < b
        invariant
            a <= i <= b <= v.len(),
            out@ == v@.subrange(a as int, i as int),
        decreases b - i,
    {
        out.push(v[i]);
        i = i + 1;
        assert(out@ =~= v@.subrange(a as int, i as int));
    }
    let ghost first = out@;
    let mut i = c;
    while i < d
        invariant
            c <= i <= d <= v.len(),
            out@ == first + v@.subrange(c as int, i as int),
        decreases d - i,
    {
        out.push(v[i]);
        i = i + 1;
        assert(out@ =~= first + v@.subrange(c as int, i as int));
    }
    out
}

/// `held` of `v`: `v`, or `MAX_STAMP_MILLIS` when it is larger.
pub open spec fn held(v: int) -> int {
    if v > MAX_STAMP_MILLIS { MAX_STAMP_MILLIS as int } else { v }
}

/// `n` times ten to the `sc`, known to stay below ten to the eighteen.
fn times_pow10(n: i64, sc: usize, Ghost(k): Ghost<nat>) -> (r: i64)
    requires
        0 <= n < pow10(k),
        k + sc <= 18,
    ensures
        r == n * pow10(sc as nat),
        0 <= r < pow10(18),
{
    assert(pow10(18) == 1000000000000000000) by {
        reveal_with_fuel(pow10, 19);
    }
    let mut acc: i64 = n;
    let mut i: usize = 0;
    while i < sc
        invariant
            i <= sc,
            k + sc <= 18,
            pow10(18) == 1000000000000000000,
            0 <= n,
            acc == n * pow10(i as nat),
            acc < pow10((k + i) as nat),
            0 <= acc,
        decreases sc - i,
    {
        proof {
            lemma_pow10_mono((k + i + 1) as nat, 18);
            let p = pow10(i as nat);
            assert(n * (10 * p) == (n * p) * 10) by (nonlinear_arith);
        }
        acc = acc * 10;
        i = i + 1;
    }
    proof {
        lemma_pow10_mono((k + sc) as nat, 18);
    }
    acc
}

/// The digits `ds` scaled by ten to the `ev + 3 - flen` and held within
/// `MAX_STAMP_MILLIS`, from the exponent held within `EXPONENT_BOUND`.
fn capped_scaled(ds: &Vec<char>, e: i128, flen: usize, Ghost(ev): Ghost<int>) -> (r: i64)
    requires
        all_digits(ds@),
        e == bounded_exponent(ev),
    ensures
        r == held(scaled(digits_value(ds@), ev + 3 - flen)),
        0 <= r <= MAX_STAMP_MILLIS,
{
    let ghost n_all = digits_value(ds@);
    let mut z: usize = 0;
    while z < ds.len() && ds[z] == '0'
        invariant
            z <= ds@.len(),
            forall|i: int| 0 <= i < z ==> ds@[i] == '0',
        decreases ds.len() - z,
    {
        z = z + 1;
    }
    let k = ds.len() - z;
    let ghost dd = ds@.subrange(z as int, ds@.len() as int);
    proof {
        lemma_leading_zeros(ds@, z as int);
        assert forall|i: int| 0 <= i < dd.len() implies is_digit(#[trigger] dd[i]) by {
            assert(dd[i] == ds@[i + z]);
        }
    }
    let ghost scale: int = ev + 3 - flen;
    let t: i128 = k as i128 + e + 3 - flen as i128;
    proof {
        if ev > EXPONENT_BOUND {
            assert(t > 18 && k + scale > 18);
        } else if ev < -EXPONENT_BOUND {
            assert(t <= 0 && k + scale <= 0);
        } else {
            assert(t == k + scale);
        }
    }
    if k == 0 {
        proof {
            assert(dd.len() == 0);
            assert(n_all == 0);
            if scale >= 0 {
                assert(0 * pow10(scale as nat) == 0);
            } else {
                lemma_pow10_mono(0, (-scale) as nat);
                vstd::arithmetic::div_mod::lemma_fundamental_div_mod_converse(0, pow10((-scale) as nat), 0, 0);
            }
        }
        return 0;
    }
    proof {
        assert(dd[0] == ds@[z as int]);
        lemma_scaled_cases(dd, scale);
        assert(pow10(18) == 1000000000000000000) by {
            reveal_with_fuel(pow10, 19);
        }
    }
    if t > 18 {
        MAX_STAMP_MILLIS
    } else if t <= 0 {
        0
    } else if e + 3 - (flen as i128) >= 0 {
        let sc = (e + 3 - flen as i128) as usize;
        proof {
            lemma_digits_bound(dd);
        }
        assert(ds@.subrange(z as int, ds.len() as int) == dd);
        let nv = digits_to_int(ds, z, ds.len());
        let acc = times_pow10(nv, sc, Ghost(k as nat));
        if acc > MAX_STAMP_MILLIS {
            MAX_STAMP_MILLIS
        } else {
            acc
        }
    } else {
        let keep = t as usize;
        assert(ds@.subrange(z as int, z + keep) =~= dd.take(keep as int));
        let nv = digits_to_int(ds, z, z + keep);
        proof {
            lemma_pow10_mono(keep as nat, 18);
        }
        if nv > MAX_STAMP_MILLIS {
            MAX_STAMP_MILLIS
        } else {
            nv
        }
    }
}

/// Parses `v[lo..hi]` as `decimal_millis` describes.
pub fn parse_decimal_millis(v: &Vec<char>, lo: usize, hi: usize) -> (r: Option<i64>)
    requires
        lo <= hi <= v.len(),
    ensures
        match decimal_millis(v@.subrange(lo as int, hi as int)) {
            Some(m) => r == Some(m as i64) && -MAX_STAMP_MILLIS <= m <= MAX_STAMP_MILLIS,
            None => r is None,
        },
{
    let ghost s = v@.subrange(lo as int, hi as int);
    let signed = lo < hi && (v[lo] == '+' || v[lo] == '-');
    let negative = lo < hi && v[lo] == '-';
    let start = if signed { lo + 1 } else { lo };
    proof {
        let b = if signed { s.drop_first() } else { s };
        assert(b =~= v@.subrange(start as int, hi as int));
        reveal_strlit("inf");
        reveal_strlit("INF");
        reveal_strlit("infinity");
        reveal_strlit("INFINITY");
        reveal_strlit("nan");
        reveal_strlit("NAN");
    }
    if range_spells(v, start, hi, "inf", "INF") || range_spells(v, start, hi, "infinity", "INFINITY") {
        if negative {
            Some(-MAX_STAMP_MILLIS)
        } else {
            Some(MAX_STAMP_MILLIS)
        }
    } else if range_spells(v, start, hi, "nan", "NAN") {
        Some(MAX_STAMP_MILLIS)
    } else {
        parse_finite_millis(v, start, hi, negative)
    }
}

/// Parses `v[start..hi]` as `finite_millis` describes.
#[verifier::spinoff_prover]
#[verifier::rlimit(50)]
fn parse_finite_millis(v: &Vec<char>, start: usize, hi: usize, negative: bool) -> (r: Option<i64>)
    requires
        start <= hi <= v.len(),
    ensures
        match finite_millis(v@.subrange(start as int, hi as int), negative) {
            Some(m) => r == Some(m as i64) && -MAX_STAMP_MILLIS <= m <= MAX_STAMP_MILLIS,
            None => r is None,
        },
{
    let ghost body = v@.subrange(start as int, hi as int);
    let xl = find_char(v, start, hi, 'e');
    let xu = find_char(v, start, hi, 'E');
    let x = if xl <= xu { xl } else { xu };
    assert(x - start == exp_marker(body));
    let ghost mant = body.subrange(0, x - start);
    assert(mant =~= v@.subrange(start as int, x as int));
    let d = find_char(v, start, x, '.');
    let fstart = if d < x { d + 1 } else { x };
    let ghost ip = mant.subrange(0, d - start);
    let ghost fp = if d < x { mant.subrange(d - start + 1, mant.len() as int) } else { Seq::<char>::empty() };
    assert(ip =~= v@.subrange(start as int, d as int));
    assert(fp =~= v@.subrange(fstart as int, x as int));
    if !range_all_digits(v, start, d) || !range_all_digits(v, fstart, x) {
        return None;
    }
    if (d - start) + (x - fstart) == 0 {
        return None;
    }
    let e: i128 = if x < hi {
        assert(body.subrange(x - start + 1, body.len() as int) =~= v@.subrange(x + 1, hi as int));
        match parse_exponent(v, x + 1, hi) {
            Some(e) => e,
            None => { return None; },
        }
    } else {
        0
    };
    let ghost ev: int = if x < hi { exponent_value(v@.subrange(x + 1, hi as int))->0 } else { 0 };
    assert(e == bounded_exponent(ev));
    let ds = two_ranges(v, start, d, fstart, x);
    assert(ds@ == ip + fp);
    let ghost n_all = digits_value(ds@);
    assert forall|i: int| 0 <= i < ds@.len() implies is_digit(#[trigger] ds@[i]) by {
        if i < ip.len() {
            assert(ds@[i] == ip[i]);
        } else {
            assert(ds@[i] == fp[i - ip.len()]);
        }
    }
    let flen = x - fstart;
    let val = capped_scaled(&ds, e, flen, Ghost(ev));
    if negative {
        Some(-val)
    } else {
        Some(val)
    }
}

} // verus!

verus! {

/// `needle` occurs in `hay` starting at position `i`.
pub open spec fn occurs_at(hay: Seq<char>, needle: Seq<char>, i: int) -> bool {
    0 <= i && i + needle.len() <= hay.len() && hay.subrange(i, i + needle.len()) == needle
}

/// `needle` occurs somewhere in `hay` (the empty needle always does).
pub open spec fn contains_seq(hay: Seq<char>, needle: Seq<char>) -> bool {
    exists|i: int| occurs_at(hay, needle, i)
}

/// Whether `needle` occurs in `v[i..]` at position `i`.
fn matches_at(v: &Vec<char>, needle: &Vec<char>, i: usize) -> (r: bool)
    requires
        i + needle.len() <= v.len(),
    ensures
        r == occurs_at(v@, needle@, i as int),
{
    let mut j: usize = 0;
    while j < needle.len()
        invariant
            i + needle.len() <= v.len(),
            j <= needle.len(),
            forall|k: int| 0 <= k < j ==> v@[i + k] == needle@[k],
        decreases needle.len() - j,
    {
        if v[i + j] != needle[j] {
            assert(v@.subrange(i as int, i + needle.len())[j as int] != needle@[j as int]);
            return false;
        }
        j = j + 1;
    }
    assert(v@.subrange(i as int, i + needle.len()) =~= needle@);
    true
}

/// Substring search, as `str::contains` with a string pattern.
pub fn str_contains(hay: &str, needle: &str) -> (r: bool)
    ensures
        r == contains_seq(hay@, needle@),
{
    let v = chars_of(hay);
    let n = chars_of(needle);
    if n.len() > v.len() {
        assert forall|i: int| !occurs_at(hay@, needle@, i) by {}
        return false;
    }
    let last = v.len() - n.len();
    let mut i: usize = 0;
    loop
        invariant
            v@ == hay@,
            n@ == needle@,
            last + n.len() == v.len(),
            i <= last,
            forall|k: int| 0 <= k < i ==> !occurs_at(hay@, needle@, k),
        ensures
            i == last,
            forall|k: int| 0 <= k <= i ==> !occurs_at(hay@, needle@, k),
        decreases last - i,
    {
        if matches_at(&v, &n, i) {
            return true;
        }
        if i == last {
            break;
        }
        i = i + 1;
    }
    assert forall|k: int| !occurs_at(hay@, needle@, k) by {
        if k > i {
            assert(k + needle@.len() > hay@.len());
        }
    }
    false
}

} // verus!

verus! {

/// Collects characters into a `String` (`Iterator::collect`).
#[verifier::external_body]
pub(crate) fn string_from_chars(v: &Vec<char>) -> (r: String)
    ensures
        r@ == v@,
{
    v.iter().collect()
}

/// The character of a decimal digit.
pub open spec fn digit_char(d: int) -> char {
    (('0' as int) + d) as char
}

/// The decimal representation of `n`, without leading zeros.
pub open spec fn decimal(n: nat) -> Seq<char>
    decreases n,
{
    if n < 10 {
        seq![digit_char(n as int)]
    } else {
        decimal(n / 10).push(digit_char((n % 10) as int))
    }
}

/// The character of the digit `d`.
pub fn digit_to_char(d: u64) -> (c: char)
    requires
        d < 10,
    ensures
        c == digit_char(d as int),
{
    match d {
        0 => '0',
        1 => '1',
        2 => '2',
        3 => '3',
        4 => '4',
        5 => '5',
        6 => '6',
        7 => '7',
        8 => '8',
        _ => '9',
    }
}

/// Appends the decimal representation of `n` to `out`.
pub fn push_decimal(out: &mut Vec<char>, n: u64)
    ensures
        final(out)@ == old(out)@ + decimal(n as nat),
    decreases n,
{
    if n >= 10 {
        push_decimal(out, n / 10);
    }
    out.push(digit_to_char(n % 10));
    assert(n >= 10 ==> decimal(n as nat) == decimal((n / 10) as nat).push(digit_char((n % 10) as int)));
}

} // verus!

verus! {

/// The lowercase form of `s` as `str::to_lowercase` produces it (Unicode
/// lowercase mapping).
pub uninterp spec fn lowercase(s: Seq<char>) -> Seq<char>;

/// Calls `str::to_lowercase`, which maps each character to one or more
/// lowercase characters: the result is at least as long as `s`, and empty
/// exactly when `s` is.
#[verifier::external_body]
pub(crate) fn to_lowercase(s: &str) -> (r: String)
    ensures
        r@ == lowercase(s@),
        s@.len() <= r@.len(),
        s@.len() == 0 ==> r@.len() == 0,
{
    s.to_lowercase()
}

} // verus!
