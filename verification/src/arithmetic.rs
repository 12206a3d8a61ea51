use crate::number::{decimal, int_text, push_decimal, push_int};
use crate::text::{lines, push_str, split_lines, string_of, texts, views};
use vstd::arithmetic::div_mod::{lemma_basic_div, lemma_small_mod};
use vstd::arithmetic::power2::{
    lemma2_to64,
    lemma2_to64_rest,
    lemma_pow2_adds,
    lemma_pow2_pos,
    lemma_pow2_strictly_increases,
    lemma_pow2_unfold,
    pow2,
};
use vstd::prelude::*;

verus! {

/// The value of an expression: a binary64 floating-point number by its bit
/// pattern, and the number written out in decimal.
pub struct Evaluated {
    pub bits: u64,
    pub text: String,
}

/// The biased exponent field of a binary64 bit pattern.
pub open spec fn exponent(bits: u64) -> int {
    (bits as int / 0x10_0000_0000_0000) % 2048
}

/// The fraction field of a binary64 bit pattern.
pub open spec fn fraction(bits: u64) -> int {
    bits as int % 0x10_0000_0000_0000
}

/// Whether the sign bit of a binary64 bit pattern is set.
pub open spec fn negative(bits: u64) -> bool {
    bits >= 0x8000_0000_0000_0000
}

/// Positive or negative infinity.
pub open spec fn is_infinite(bits: u64) -> bool {
    exponent(bits) == 2047 && fraction(bits) == 0
}

/// The integer `m` of a finite number `±m · 2^e`.
pub open spec fn significand(bits: u64) -> int {
    if exponent(bits) == 0 {
        fraction(bits)
    } else {
        0x10_0000_0000_0000 + fraction(bits)
    }
}

/// The exponent `e` of a finite number `±m · 2^e`.
pub open spec fn scale(bits: u64) -> int {
    if exponent(bits) == 0 {
        -1074
    } else {
        exponent(bits) - 1075
    }
}

/// Whether the number is finite and has no fractional part.
pub open spec fn is_whole(bits: u64) -> bool {
    exponent(bits) < 2047 && (scale(bits) >= 0 || significand(bits) % (pow2(
        (-scale(bits)) as nat,
    ) as int) == 0)
}

/// The absolute value of a finite number, rounded toward zero.
pub open spec fn magnitude(bits: u64) -> int {
    if scale(bits) >= 0 {
        significand(bits) * pow2(scale(bits) as nat)
    } else {
        significand(bits) / (pow2((-scale(bits)) as nat) as int)
    }
}

/// A finite number rounded toward zero, as the nearest 128-bit signed
/// integer.
pub open spec fn whole_value(bits: u64) -> int {
    let value = if negative(bits) {
        -magnitude(bits)
    } else {
        magnitude(bits)
    };
    if value > i128::MAX {
        i128::MAX as int
    } else if value < i128::MIN {
        i128::MIN as int
    } else {
        value
    }
}

fn power_of_two(k: u32) -> (p: u128)
    requires
        k <= 74,
    ensures
        p == pow2(k as nat),
        p <= 0x400_0000_0000_0000_0000,
{
    let mut p: u128 = 1;
    let mut i: u32 = 0;
    proof {
        lemma2_to64();
        lemma_pow2_adds(64, 10);
    }
    while i < k
        invariant
            i <= k <= 74,
            p == pow2(i as nat),
            pow2(74) == 0x400_0000_0000_0000_0000,
        decreases k - i,
    {
        proof {
            lemma_pow2_unfold((i + 1) as nat);
            if i + 1 < 74 {
                lemma_pow2_strictly_increases((i + 1) as nat, 74);
            }
        }
        p = p * 2;
        i += 1;
    }
    proof {
        if k < 74 {
            lemma_pow2_strictly_increases(k as nat, 74);
        }
    }
    p
}

/// How a binary64 number is to be shown.
pub enum Shape {
    Infinite,
    Whole(i128),
    Fractional,
}

/// The shape of the number with bit pattern `bits`.
pub open spec fn shape_of(bits: u64) -> Shape {
    if is_infinite(bits) {
        Shape::Infinite
    } else if is_whole(bits) {
        Shape::Whole(whole_value(bits) as i128)
    } else {
        Shape::Fractional
    }
}

pub fn classify(bits: u64) -> (shape: Shape)
    ensures
        shape == shape_of(bits),
{
    let exp: u64 = (bits / 0x10_0000_0000_0000) % 2048;
    let frac: u64 = bits % 0x10_0000_0000_0000;
    let minus = bits >= 0x8000_0000_0000_0000;
    if exp == 2047 {
        if frac == 0 {
            Shape::Infinite
        } else {
            Shape::Fractional
        }
    } else if exp == 0 {
        proof {
            lemma2_to64_rest();
            lemma_pow2_strictly_increases(52, 1074);
            lemma_small_mod(frac as nat, pow2(1074));
            lemma_basic_div(frac as int, pow2(1074) as int);
        }
        if frac == 0 {
            Shape::Whole(0)
        } else {
            Shape::Fractional
        }
    } else if exp < 1023 {
        let ghost k = (1075 - exp) as nat;
        proof {
            lemma2_to64_rest();
            if k > 53 {
                lemma_pow2_strictly_increases(53, k);
            }
            lemma_small_mod((0x10_0000_0000_0000 + frac) as nat, pow2(k));
        }
        Shape::Fractional
    } else if exp < 1075 {
        let k: u32 = (1075 - exp) as u32;
        let p: u128 = power_of_two(k);
        let sig: u128 = (0x10_0000_0000_0000 + frac) as u128;
        proof {
            lemma_pow2_pos(k as nat);
        }
        if sig % p == 0 {
            let m: u128 = sig / p;
            assert(m <= sig) by (nonlinear_arith)
                requires
                    m == sig / p,
                    p >= 1,
            ;
            if minus {
                Shape::Whole(-(m as i128))
            } else {
                Shape::Whole(m as i128)
            }
        } else {
            Shape::Fractional
        }
    } else {
        let shift: u64 = exp - 1075;
        let sig: u128 = (0x10_0000_0000_0000 + frac) as u128;
        if shift >= 75 {
            proof {
                lemma2_to64();
                lemma_pow2_adds(64, 11);
                if shift > 75 {
                    lemma_pow2_strictly_increases(75, shift as nat);
                }
                let big = pow2(shift as nat) as int;
                assert(sig * big >= 0x8000_0000_0000_0000_0000_0000_0000_0000) by (nonlinear_arith)
                    requires
                        sig >= 0x10_0000_0000_0000,
                        big >= 0x800_0000_0000_0000_0000,
                ;
            }
            if minus {
                Shape::Whole(i128::MIN)
            } else {
                Shape::Whole(i128::MAX)
            }
        } else {
            let p: u128 = power_of_two(shift as u32);
            assert(sig * p < 0x8000_0000_0000_0000_0000_0000_0000_0000) by (nonlinear_arith)
                requires
                    sig < 0x20_0000_0000_0000,
                    p <= 0x400_0000_0000_0000_0000,
            ;
            let m: u128 = sig * p;
            if minus {
                Shape::Whole(-(m as i128))
            } else {
                Shape::Whole(m as i128)
            }
        }
    }
}

/// The text that addresses a user by id.
pub open spec fn mention(sender: u64) -> Seq<char> {
    "[CQ:at,qq="@ + decimal(sender as nat) + "]"@
}

/// Appends the text that addresses `sender` to `out`.
pub fn push_mention(out: &mut Vec<char>, sender: u64)
    ensures
        final(out)@ == old(out)@ + mention(sender),
{
    push_str(out, "[CQ:at,qq=");
    push_decimal(out, sender as u128);
    push_str(out, "]");
    assert(out@ =~= old(out)@ + mention(sender));
}

/// The reply to an expression whose value has bit pattern `bits` and is
/// written `shown`: a fixed refusal for an infinite value, the integer for a
/// value without fractional part, and the number as written otherwise.
pub open spec fn arithmetic_text(sender: u64, bits: u64, shown: Seq<char>) -> Seq<char> {
    mention(sender) + match shape_of(bits) {
        Shape::Infinite => "太大了自己算去"@,
        Shape::Whole(value) => int_text(value as int),
        Shape::Fractional => shown,
    }
}

pub fn arithmetic_reply(sender: u64, value: &Evaluated) -> (reply: String)
    ensures
        reply@ == arithmetic_text(sender, value.bits, value.text@),
{
    let mut out: Vec<char> = Vec::new();
    push_mention(&mut out, sender);
    match classify(value.bits) {
        Shape::Infinite => push_str(&mut out, "太大了自己算去"),
        Shape::Whole(n) => push_int(&mut out, n),
        Shape::Fractional => push_str(&mut out, value.text.as_str()),
    }
    assert(out@ =~= arithmetic_text(sender, value.bits, value.text@));
    string_of(&out)
}

/// The replies to the lines of a message, given what each line evaluates
/// to: one reply for each line that is an expression, in the order of the
/// lines.
pub open spec fn arithmetic_texts(sender: u64, values: Seq<Option<Evaluated>>) -> Seq<Seq<char>>
    decreases values.len(),
{
    if values.len() == 0 {
        Seq::empty()
    } else {
        let before = arithmetic_texts(sender, values.drop_last());
        match values.last() {
            Some(value) => before.push(arithmetic_text(sender, value.bits, value.text@)),
            None => before,
        }
    }
}

pub fn arithmetic_replies(sender: u64, values: &Vec<Option<Evaluated>>) -> (replies: Vec<String>)
    ensures
        views(replies@) == arithmetic_texts(sender, values@),
{
    let mut out: Vec<String> = Vec::new();
    let mut i: usize = 0;
    assert(views(out@) =~= Seq::<Seq<char>>::empty());
    assert(values@.take(0) =~= Seq::<Option<Evaluated>>::empty());
    while i < values.len()
        invariant
            i <= values.len(),
            views(out@) == arithmetic_texts(sender, values@.take(i as int)),
        decreases values.len() - i,
    {
        proof {
            assert(values@.take(i + 1).drop_last() =~= values@.take(i as int));
            assert(values@.take(i + 1).last() == values@[i as int]);
        }
        let ghost before = views(out@);
        match &values[i] {
            Some(value) => {
                let reply = arithmetic_reply(sender, value);
                out.push(reply);
                assert(views(out@) =~= before.push(reply@));
            },
            None => {},
        }
        i += 1;
    }
    assert(values@.take(values@.len() as int) =~= values@);
    out
}

/// What the standard formatter writes for the binary64 number with bit
/// pattern `bits`.
pub uninterp spec fn float_text(bits: u64) -> Seq<char>;

/// `fasteval::ez_eval` with an empty namespace: the value of `line`, or
/// nothing where `line` is no expression. The value comes back as its bit
/// pattern together with the number as the standard formatter writes it.
/// Of the value itself nothing is claimed: floating-point functions may
/// round differently from one machine to the next.
#[verifier::external_body]
fn evaluate(line: &str) -> (value: Option<Evaluated>)
    ensures
        value matches Some(v) ==> v.text@ == float_text(v.bits),
{
    let mut namespace = fasteval::EmptyNamespace;
    match fasteval::ez_eval(line, &mut namespace) {
        Ok(number) => Some(Evaluated { bits: number.to_bits(), text: format!("{}", number) }),
        Err(_) => None,
    }
}

/// Whether each value is written as its number is.
pub open spec fn faithfully_written(values: Seq<Option<Evaluated>>) -> bool {
    forall|i: int|
        0 <= i < values.len() ==> ((#[trigger] values[i]) matches Some(v) ==> v.text@
            == float_text(v.bits))
}

/// Evaluates each line of `text` as an expression.
pub fn evaluate_lines(text: &Vec<char>) -> (values: Vec<Option<Evaluated>>)
    ensures
        values@.len() == lines(text@).len(),
        faithfully_written(values@),
{
    let all = split_lines(text);
    let mut values: Vec<Option<Evaluated>> = Vec::new();
    let mut i: usize = 0;
    assert(texts(all@).len() == all@.len());
    while i < all.len()
        invariant
            i <= all.len(),
            values@.len() == i,
            faithfully_written(values@),
        decreases all.len() - i,
    {
        let line = string_of(&all[i]);
        let value = evaluate(line.as_str());
        values.push(value);
        i += 1;
    }
    values
}

} // verus!
