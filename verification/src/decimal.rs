use vstd::prelude::*;
use crate::text::string_of;

verus! {

/// Ten to the power `n`.
pub open spec fn pow10(n: nat) -> nat
    decreases n,
{
    if n == 0 {
        1
    } else {
        10 * pow10((n - 1) as nat)
    }
}

pub proof fn lemma_pow10_positive(n: nat)
    ensures
        pow10(n) >= 1,
    decreases n,
{
    if n > 0 {
        lemma_pow10_positive((n - 1) as nat);
    }
}

pub proof fn lemma_pow10_adds(a: nat, b: nat)
    ensures
        pow10(a + b) == pow10(a) * pow10(b),
    decreases a,
{
    if a > 0 {
        let a1 = (a - 1) as nat;
        lemma_pow10_adds(a1, b);
        assert((a1 + b) as nat == (a + b - 1) as nat);
        assert(pow10(a + b) == 10 * pow10(a1 + b));
        assert(pow10(a) == 10 * pow10(a1));
        let x = pow10(a1);
        let y = pow10(b);
        assert(10 * (x * y) == (10 * x) * y) by (nonlinear_arith);
    } else {
        assert(pow10(a) == 1);
        assert(a + b == b);
    }
}

pub proof fn lemma_pow10_monotone(a: nat, b: nat)
    requires
        a <= b,
    ensures
        pow10(a) <= pow10(b),
    decreases b,
{
    if a < b {
        lemma_pow10_monotone(a, (b - 1) as nat);
        lemma_pow10_positive((b - 1) as nat);
    }
}

/// The character of a decimal digit.
pub open spec fn digit_char(d: nat) -> char {
    ((48 + d) as u8) as char
}

/// The decimal digits of a natural number, without leading zeros.
pub open spec fn dec_str(n: nat) -> Seq<char>
    decreases n,
{
    if n < 10 {
        seq![digit_char(n)]
    } else {
        dec_str(n / 10).push(digit_char(n % 10))
    }
}

/// A string of `k` zeros.
pub open spec fn zeros(k: nat) -> Seq<char> {
    Seq::new(k, |i: int| '0')
}

/// Moves trailing decimal zeros of `digits` into the exponent.
pub open spec fn strip_zeros(digits: nat, exp: int) -> (nat, int)
    decreases digits,
{
    if digits > 0 && digits % 10 == 0 {
        strip_zeros(digits / 10, exp + 1)
    } else {
        (digits, exp)
    }
}

/// An exact decimal number `(-1)^negative * digits * 10^exponent`.
///
/// This is how the library holds the numbers of a design file: the shortest
/// decimal that denotes a value is the text that a designer sees and that the
/// generated CSS classes print, and it compares with the thresholds of the
/// style rules exactly as the number itself does.
#[derive(Clone, Copy, Debug, PartialEq, Eq)]
pub struct Decimal {
    pub negative: bool,
    pub digits: u64,
    pub exponent: i32,
}

/// Appends the decimal digits of `n` to `out`.
pub fn push_dec_digits(n: u64, out: &mut Vec<char>)
    ensures
        final(out)@ == old(out)@ + dec_str(n as nat),
    decreases n,
{
    if n >= 10 {
        push_dec_digits(n / 10, out);
    }
    let d: u8 = (n % 10) as u8;
    out.push((48u8 + d) as char);
    assert(out@ == old(out)@ + dec_str(n as nat));
}

/// Appends `k` zeros to `out`.
fn push_zeros(k: u128, out: &mut Vec<char>)
    ensures
        final(out)@ == old(out)@ + zeros(k as nat),
{
    let mut i: u128 = 0;
    while i < k
        invariant
            i <= k,
            out@ == old(out)@ + zeros(i as nat),
        decreases k - i,
    {
        out.push('0');
        i += 1;
        assert(zeros(i as nat) == zeros((i - 1) as nat).push('0'));
    }
}

impl Decimal {
    /// Whether the number is above the integer `c`.
    pub open spec fn above(self, c: int) -> bool {
        self.num() > c * self.den()
    }

    /// Whether the number is below the integer `c`.
    pub open spec fn below(self, c: int) -> bool {
        self.num() < c * self.den()
    }

    /// Whether the number is at most the integer `c`.
    pub open spec fn at_most(self, c: int) -> bool {
        self.num() <= c * self.den()
    }

    /// Whether the number is at least the integer `c`.
    pub open spec fn at_least(self, c: int) -> bool {
        self.num() >= c * self.den()
    }

    /// Whether the number equals the integer `c`.
    pub open spec fn equals(self, c: int) -> bool {
        self.num() == c * self.den()
    }

    /// The conversion of the number to an unsigned integer type whose largest
    /// value is `max`, as a saturating float-to-integer cast performs it.
    pub open spec fn trunc_to(self, max: int) -> int {
        trunc_sat(self.num(), self.den(), max)
    }

    /// The numerator of the value over `den`.
    pub open spec fn num(self) -> int {
        let m: int = if self.exponent >= 0 {
            self.digits * pow10(self.exponent as nat)
        } else {
            self.digits as int
        };
        if self.negative { -m } else { m }
    }

    /// The (positive) denominator of the value.
    pub open spec fn den(self) -> nat {
        if self.exponent < 0 {
            pow10((-self.exponent) as nat)
        } else {
            1
        }
    }

    /// The text that Rust's `Display` prints for the number: the sign, the
    /// integer digits, and a fraction only where it is not zero.
    pub open spec fn render(self) -> Seq<char> {
        let (m, e) = strip_zeros(self.digits as nat, self.exponent as int);
        let sign: Seq<char> = if self.negative { seq!['-'] } else { seq![] };
        if m == 0 {
            sign + seq!['0']
        } else if e >= 0 {
            sign + dec_str(m) + zeros(e as nat)
        } else {
            let s = dec_str(m);
            let k = -e;
            if s.len() > k {
                sign + s.take(s.len() - k) + seq!['.'] + s.skip(s.len() - k)
            } else {
                sign + seq!['0', '.'] + zeros((k - s.len()) as nat) + s
            }
        }
    }
}

impl Decimal {
    /// The text of the number as `Display` prints it.
    pub fn render_chars(&self) -> (r: Vec<char>)
        ensures
            r@ == self.render(),
    {
        let mut m: u64 = self.digits;
        let mut e: i128 = self.exponent as i128;
        while m > 0 && m % 10 == 0
            invariant
                strip_zeros(m as nat, e as int) == strip_zeros(self.digits as nat, self.exponent as int),
                self.exponent <= e <= self.exponent + (self.digits - m),
                m <= self.digits,
            decreases m,
        {
            m = m / 10;
            e = e + 1;
        }
        let mut out: Vec<char> = Vec::new();
        if self.negative {
            out.push('-');
        }
        let ghost sign = out@;
        assert(sign == (if self.negative { seq!['-'] } else { Seq::<char>::empty() }));
        if m == 0 {
            out.push('0');
        } else if e >= 0 {
            push_dec_digits(m, &mut out);
            push_zeros(e as u128, &mut out);
        } else {
            let mut s: Vec<char> = Vec::new();
            push_dec_digits(m, &mut s);
            assert(s@ == dec_str(m as nat));
            let k: u128 = (0 - e) as u128;
            let len: usize = s.len();
            if (len as u128) > k {
                let split: usize = (len as u128 - k) as usize;
                let mut i: usize = 0;
                while i < split
                    invariant
                        split <= len == s.len(),
                        i <= split,
                        out@ == sign + s@.take(i as int),
                    decreases split - i,
                {
                    out.push(s[i]);
                    i += 1;
                    assert(s@.take(i as int) == s@.take(i - 1).push(s@[i - 1]));
                }
                out.push('.');
                let ghost mid = out@;
                assert(mid == sign + s@.take(split as int) + seq!['.']);
                while i < len
                    invariant
                        split <= i <= len == s.len(),
                        out@ == mid + s@.subrange(split as int, i as int),
                    decreases len - i,
                {
                    out.push(s[i]);
                    i += 1;
                    assert(s@.subrange(split as int, i as int) == s@.subrange(split as int, i - 1).push(s@[i - 1]));
                }
                assert(s@.subrange(split as int, len as int) == s@.skip(split as int));
            } else {
                out.push('0');
                out.push('.');
                push_zeros(k - len as u128, &mut out);
                let mut i: usize = 0;
                let ghost mid = out@;
                while i < len
                    invariant
                        i <= len == s.len(),
                        out@ == mid + s@.take(i as int),
                    decreases len - i,
                {
                    out.push(s[i]);
                    i += 1;
                    assert(s@.take(i as int) == s@.take(i - 1).push(s@[i - 1]));
                }
                assert(s@.take(len as int) == s@);
            }
        }
        out
    }

    /// The text of the number as `Display` prints it.
    pub fn to_text(&self) -> (r: String)
        ensures
            r@ == self.render(),
    {
        let v = self.render_chars();
        string_of(&v)
    }
}

proof fn lemma_pow10_20()
    ensures
        pow10(19) == 10000000000000000000,
        pow10(20) == 100000000000000000000,
        pow10(38) == 100000000000000000000000000000000000000,
{
    reveal_with_fuel(pow10, 39);
}

/// Ten to the power `k`, for the powers that fit the computation.
fn pow10_u128(k: u32) -> (r: u128)
    requires
        k <= 38,
    ensures
        r == pow10(k as nat),
{
    proof {
        lemma_pow10_20();
    }
    let mut r: u128 = 1;
    let mut i: u32 = 0;
    while i < k
        invariant
            i <= k <= 38,
            r == pow10(i as nat),
            pow10(38) == 100000000000000000000000000000000000000,
        decreases k - i,
    {
        proof {
            lemma_pow10_monotone((i + 1) as nat, 38);
        }
        r = r * 10;
        i += 1;
    }
    r
}

/// The value of a float-to-integer conversion of `num / den` that saturates at
/// `max`: zero for values at or below zero, the integer part otherwise.
pub open spec fn trunc_sat(num: int, den: nat, max: int) -> int {
    if num <= 0 {
        0
    } else if num / (den as int) > max {
        max
    } else {
        num / (den as int)
    }
}

impl Decimal {
    /// Compares the number with a non-negative integer: `-1`, `0` or `1`
    /// as the number is below, equal to or above `c`.
    pub fn compare_int(&self, c: u64) -> (r: i8)
        ensures
            r == -1 <==> self.num() < c * self.den(),
            r == 0 <==> self.num() == c * self.den(),
            r == 1 <==> self.num() > c * self.den(),
    {
        proof {
            lemma_pow10_20();
            lemma_pow10_positive((-self.exponent) as nat);
            lemma_pow10_positive(self.exponent as nat);
        }
        if self.digits == 0 {
            assert(self.num() == 0);
            if c == 0 { 0 } else {
                assert(c * self.den() > 0) by (nonlinear_arith)
                    requires c > 0, self.den() >= 1;
                -1
            }
        } else if self.negative {
            assert(self.num() < 0) by (nonlinear_arith)
                requires
                    self.num() == -(if self.exponent >= 0 { self.digits * pow10(self.exponent as nat) } else { self.digits as int }),
                    self.digits >= 1, pow10(self.exponent as nat) >= 1;
            assert(c * self.den() >= 0) by (nonlinear_arith)
                requires c >= 0, self.den() >= 1;
            -1
        } else if self.exponent >= 0 {
            assert(self.den() == 1);
            let ghost p = pow10(self.exponent as nat);
            if self.exponent >= 20 {
                proof {
                    lemma_pow10_monotone(20, self.exponent as nat);
                }
                assert(self.num() > c * self.den()) by (nonlinear_arith)
                    requires
                        self.num() == self.digits * p,
                        self.digits >= 1,
                        p >= 100000000000000000000,
                        c <= u64::MAX,
                        self.den() == 1;
                1
            } else {
                let pw = pow10_u128(self.exponent as u32);
                proof {
                    lemma_pow10_monotone(self.exponent as nat, 19);
                }
                assert(self.digits * pw <= u64::MAX * 10000000000000000000) by (nonlinear_arith)
                    requires self.digits <= u64::MAX, pw <= 10000000000000000000, pw >= 1;
                let prod: u128 = self.digits as u128 * pw;
                if prod < c as u128 { -1 } else if prod == c as u128 { 0 } else { 1 }
            }
        } else {
            let k: u64 = (0 - (self.exponent as i64)) as u64;
            assert(self.den() == pow10(k as nat));
            assert(self.num() == self.digits);
            if k >= 20 {
                proof {
                    lemma_pow10_monotone(20, k as nat);
                }
                if c == 0 {
                    assert(self.num() > c * self.den());
                    1
                } else {
                    assert(c * self.den() >= self.den()) by (nonlinear_arith)
                        requires c >= 1, self.den() >= 1;
                    -1
                }
            } else {
                let pw = pow10_u128(k as u32);
                proof {
                    lemma_pow10_monotone(k as nat, 19);
                }
                assert(c * pw <= u64::MAX * 10000000000000000000) by (nonlinear_arith)
                    requires c <= u64::MAX, pw <= 10000000000000000000, pw >= 1;
                let rhs: u128 = c as u128 * pw;
                let d: u128 = self.digits as u128;
                if d < rhs { -1 } else if d == rhs { 0 } else { 1 }
            }
        }
    }

    /// The conversion `x as usize` of the number.
    pub fn trunc_usize(&self) -> (r: usize)
        ensures
            r == self.trunc_to(usize::MAX as int),
    {
        let t = self.trunc_u64();
        if t as u128 > usize::MAX as u128 {
            usize::MAX
        } else {
            t as usize
        }
    }

    /// The conversion `x as u8` of the number.
    pub fn trunc_u8(&self) -> (r: u8)
        ensures
            r == self.trunc_to(u8::MAX as int),
    {
        let t = self.trunc_u64();
        if t > 255 {
            255
        } else {
            t as u8
        }
    }

    /// The conversion `x as u16` of the number.
    pub fn trunc_u16(&self) -> (r: u16)
        ensures
            r == self.trunc_to(u16::MAX as int),
    {
        let t = self.trunc_u64();
        if t > 65535 {
            65535
        } else {
            t as u16
        }
    }

    /// Whether the number is below the integer `c`.
    pub fn lt_int(&self, c: u64) -> (r: bool)
        ensures
            r == (self.num() < c * self.den()),
    {
        self.compare_int(c) == -1
    }

    /// Whether the number is above the integer `c`.
    pub fn gt_int(&self, c: u64) -> (r: bool)
        ensures
            r == (self.num() > c * self.den()),
    {
        self.compare_int(c) == 1
    }

    /// Whether the number is at most the integer `c`.
    pub fn le_int(&self, c: u64) -> (r: bool)
        ensures
            r == (self.num() <= c * self.den()),
    {
        self.compare_int(c) != 1
    }

    /// Whether the number equals the integer `c`.
    pub fn eq_int(&self, c: u64) -> (r: bool)
        ensures
            r == (self.num() == c * self.den()),
    {
        self.compare_int(c) == 0
    }

    /// Whether the number is at least the integer `c`.
    pub fn ge_int(&self, c: u64) -> (r: bool)
        ensures
            r == (self.num() >= c * self.den()),
    {
        self.compare_int(c) != -1
    }

    /// Whether two numbers print the same text. For numbers above zero this is
    /// equality of their values.
    pub fn same_text(&self, other: &Decimal) -> (r: bool)
        ensures
            r == (self.render() == other.render()),
    {
        let a = self.render_chars();
        let b = other.render_chars();
        if a.len() != b.len() {
            return false;
        }
        let mut i: usize = 0;
        while i < a.len()
            invariant
                a.len() == b.len(),
                i <= a.len(),
                a@ == self.render(),
                b@ == other.render(),
                forall|j: int| 0 <= j < i ==> a@[j] == b@[j],
            decreases a.len() - i,
        {
            if a[i] != b[i] {
                return false;
            }
            i += 1;
        }
        assert(a@ == b@);
        true
    }

    /// The conversion `x as u64` of the number: its integer part, zero at or
    /// below zero, `u64::MAX` above that.
    pub fn trunc_u64(&self) -> (r: u64)
        ensures
            r == trunc_sat(self.num(), self.den(), u64::MAX as int),
    {
        proof {
            lemma_pow10_20();
            lemma_pow10_positive((-self.exponent) as nat);
            lemma_pow10_positive(self.exponent as nat);
        }
        if self.digits == 0 {
            assert(self.num() == 0);
            0
        } else if self.negative {
            assert(self.num() < 0) by (nonlinear_arith)
                requires
                    self.num() == -(if self.exponent >= 0 { self.digits * pow10(self.exponent as nat) } else { self.digits as int }),
                    self.digits >= 1, pow10(self.exponent as nat) >= 1;
            0
        } else if self.exponent >= 0 {
            assert(self.den() == 1);
            let ghost p = pow10(self.exponent as nat);
            if self.exponent >= 20 {
                proof {
                    lemma_pow10_monotone(20, self.exponent as nat);
                }
                assert(self.num() > u64::MAX) by (nonlinear_arith)
                    requires
                        self.num() == self.digits * p,
                        self.digits >= 1,
                        p >= 100000000000000000000;
                assert(self.num() / (self.den() as int) == self.num());
                u64::MAX
            } else {
                let pw = pow10_u128(self.exponent as u32);
                proof {
                    lemma_pow10_monotone(self.exponent as nat, 19);
                }
                assert(self.digits * pw <= u64::MAX * 10000000000000000000) by (nonlinear_arith)
                    requires self.digits <= u64::MAX, pw <= 10000000000000000000, pw >= 1;
                let prod: u128 = self.digits as u128 * pw;
                assert(self.num() == prod);
                assert(prod >= 1) by (nonlinear_arith)
                    requires prod == self.digits * pw, self.digits >= 1, pw >= 1;
                assert(self.num() / (self.den() as int) == self.num());
                if prod > u64::MAX as u128 { u64::MAX } else { prod as u64 }
            }
        } else {
            let k: u64 = (0 - (self.exponent as i64)) as u64;
            assert(self.den() == pow10(k as nat));
            assert(self.num() == self.digits);
            if k >= 20 {
                proof {
                    lemma_pow10_monotone(20, k as nat);
                }
                assert(self.num() / (self.den() as int) == 0) by (nonlinear_arith)
                    requires
                        0 <= self.num() <= u64::MAX,
                        self.den() >= 100000000000000000000;
                0
            } else {
                let pw = pow10_u128(k as u32);
                let q: u128 = self.digits as u128 / pw;
                assert(q == self.num() / (self.den() as int));
                assert(q <= self.digits) by (nonlinear_arith)
                    requires q == self.digits as u128 / pw, pw >= 1;
                q as u64
            }
        }
    }
}

} // verus!
