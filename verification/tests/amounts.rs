use ledger::{has_valid_precision, Amount};
use rust_decimal::Decimal;

const MAX_MANTISSA: i128 = 0xFFFF_FFFF_FFFF_FFFF_FFFF_FFFF;

fn amount(mantissa: i128, scale: u32) -> Amount {
    Amount::from_mantissa(mantissa, scale).unwrap()
}

fn written(a: Amount) -> (i128, u32) {
    (a.mantissa(), a.scale())
}

/// Both mantissas at the larger scale, where they fit in 128 bits.
fn aligned(a: (i128, u32), b: (i128, u32)) -> Option<(i128, i128, u32)> {
    let s = a.1.max(b.1);
    let x = a.0.checked_mul(10i128.pow(s - a.1))?;
    let y = b.0.checked_mul(10i128.pow(s - b.1))?;
    Some((x, y, s))
}

fn in_range(m: i128) -> Option<i128> {
    if -MAX_MANTISSA <= m && m <= MAX_MANTISSA {
        Some(m)
    } else {
        None
    }
}

fn expected_sum(a: (i128, u32), b: (i128, u32)) -> Option<(i128, u32)> {
    if a.0 == 0 {
        return Some(b);
    }
    if b.0 == 0 {
        return Some(a);
    }
    let (x, y, s) = aligned(a, b)?;
    Some((in_range(x.checked_add(y)?)?, s))
}

fn expected_difference(a: (i128, u32), b: (i128, u32)) -> Option<(i128, u32)> {
    if a.0 == 0 {
        return Some((-b.0, b.1));
    }
    if b.0 == 0 {
        return Some(a);
    }
    let (x, y, s) = aligned(a, b)?;
    Some((in_range(x.checked_sub(y)?)?, s))
}

fn sample_mantissas() -> Vec<i128> {
    let magnitudes: Vec<i128> = vec![
        0,
        1,
        5,
        999,
        1_000_000_000,
        (1i128 << 32) - 1,
        1i128 << 32,
        123_456_789_012_345,
        (1i128 << 64) - 1,
        1i128 << 64,
        MAX_MANTISSA / 10,
        MAX_MANTISSA / 2 + 1,
        MAX_MANTISSA - 1,
        MAX_MANTISSA,
    ];
    let mut all = Vec::new();
    for m in magnitudes {
        all.push(m);
        if m != 0 {
            all.push(-m);
        }
    }
    all
}

fn sample_scales() -> Vec<u32> {
    vec![0, 1, 2, 4, 5, 9, 10, 19, 20, 27, 28]
}

#[test]
fn new_keeps_mantissa_and_scale() {
    let a = Amount::new(1000, 2);
    assert_eq!(a.mantissa(), 1000);
    assert_eq!(a.scale(), 2);
    let b = Amount::new(-7, 28);
    assert_eq!(b.mantissa(), -7);
    assert_eq!(b.scale(), 28);
    let z = Amount::zero();
    assert_eq!(z.mantissa(), 0);
    assert_eq!(z.scale(), 0);
}

#[test]
fn from_mantissa_accepts_the_range_of_a_decimal() {
    assert!(Amount::from_mantissa(MAX_MANTISSA, 28).is_some());
    assert!(Amount::from_mantissa(-MAX_MANTISSA, 0).is_some());
    assert!(Amount::from_mantissa(MAX_MANTISSA + 1, 0).is_none());
    assert!(Amount::from_mantissa(-MAX_MANTISSA - 1, 0).is_none());
    assert!(Amount::from_mantissa(1, 29).is_none());
    assert!(Amount::from_mantissa(i128::MAX, 0).is_none());
    assert!(Amount::from_mantissa(i128::MIN, 0).is_none());
    let a = Amount::from_mantissa(-12345, 3).unwrap();
    assert_eq!(written(a), (-12345, 3));
}

#[test]
fn equality_is_by_value() {
    assert_eq!(Amount::new(150, 2), Amount::new(15, 1));
    assert_eq!(Amount::new(0, 0), Amount::new(0, 4));
    assert_eq!(Amount::new(130000, 2), Amount::new(1300, 0));
    assert_ne!(Amount::new(150, 2), Amount::new(150, 1));
    assert_ne!(Amount::new(1, 0), Amount::new(-1, 0));
    // a large value against a small one with a long tail of digits
    assert_ne!(amount(MAX_MANTISSA, 0), amount(1, 28));
}

#[test]
fn ge_orders_by_value() {
    assert!(Amount::new(150, 2).ge(&Amount::new(15, 1)));
    assert!(Amount::new(15, 1).ge(&Amount::new(150, 2)));
    assert!(Amount::new(151, 2).ge(&Amount::new(15, 1)));
    assert!(!Amount::new(149, 2).ge(&Amount::new(15, 1)));
    assert!(Amount::new(5, 1).ge(&Amount::new(1, 2)));
    assert!(!Amount::new(-5, 1).ge(&Amount::new(-1, 2)));
    assert!(Amount::new(0, 0).ge(&Amount::new(-1, 4)));
    assert!(!Amount::new(0, 0).ge(&Amount::new(1, 28)));
    assert!(amount(MAX_MANTISSA, 0).ge(&amount(MAX_MANTISSA, 28)));
    assert!(!amount(MAX_MANTISSA, 28).ge(&amount(MAX_MANTISSA, 0)));
}

#[test]
fn ge_agrees_with_decimal_on_every_sample() {
    for &ma in &sample_mantissas() {
        for &sa in &sample_scales() {
            for &mb in &sample_mantissas() {
                for &sb in &sample_scales() {
                    let x = Decimal::from_i128_with_scale(ma, sa);
                    let y = Decimal::from_i128_with_scale(mb, sb);
                    assert_eq!(amount(ma, sa).ge(&amount(mb, sb)), x >= y);
                    assert_eq!(amount(ma, sa) == amount(mb, sb), x == y);
                }
            }
        }
    }
}

#[test]
fn sign_is_read_from_the_mantissa() {
    assert!(Amount::new(-1, 4).is_sign_negative());
    assert!(!Amount::new(1, 4).is_sign_negative());
    assert!(!Amount::new(0, 4).is_sign_negative());
    assert!(!Amount::zero().is_sign_negative());
}

#[test]
fn precision_is_counted_in_written_digits() {
    assert!(has_valid_precision(&Amount::new(1, 0)));
    assert!(has_valid_precision(&Amount::new(20001234, 4)));
    assert!(!has_valid_precision(&Amount::new(10012345, 5)));
    // 1.50000 equals 1.5 and is still written with five digits
    assert!(!has_valid_precision(&Amount::new(150000, 5)));
    assert!(!has_valid_precision(&Amount::new(0, 28)));
}

#[test]
fn sum_is_exact_and_written_at_the_common_scale() {
    let sum = Amount::new(150, 2).plus(Amount::new(15, 1));
    assert_eq!(written(sum), (300, 2));
    let sum = Amount::new(15, 1).plus(Amount::new(150, 2));
    assert_eq!(written(sum), (300, 2));
    let sum = Amount::new(1, 4).plus(Amount::new(-1, 0));
    assert_eq!(written(sum), (-9999, 4));
    let sum = Amount::new(-5, 0).plus(Amount::new(5, 0));
    assert_eq!(written(sum), (0, 0));
    let sum = Amount::new(-5, 3).plus(Amount::new(5, 3));
    assert_eq!(written(sum), (0, 3));
}

#[test]
fn sum_with_zero_is_the_other_operand_as_written() {
    let sum = Amount::new(0, 0).plus(Amount::new(1000, 2));
    assert_eq!(written(sum), (1000, 2));
    let sum = Amount::new(0, 4).plus(Amount::new(1000, 2));
    assert_eq!(written(sum), (1000, 2));
    let sum = Amount::new(1000, 2).plus(Amount::new(0, 4));
    assert_eq!(written(sum), (1000, 2));
    let sum = Amount::new(0, 3).plus(Amount::new(0, 1));
    assert_eq!(written(sum), (0, 1));
    // zero at the largest scale does not stand in the way of a large amount
    let sum = amount(0, 28).plus(amount(MAX_MANTISSA, 0));
    assert_eq!(written(sum), (MAX_MANTISSA, 0));
}

#[test]
fn difference_is_exact_and_written_at_the_common_scale() {
    let d = Amount::new(1000, 2).minus(Amount::new(500, 2));
    assert_eq!(written(d), (500, 2));
    let d = Amount::new(1000, 2).minus(Amount::new(1000, 2));
    assert_eq!(written(d), (0, 2));
    let d = Amount::new(3, 0).minus(Amount::new(5, 1));
    assert_eq!(written(d), (25, 1));
    let d = Amount::new(5, 1).minus(Amount::new(3, 0));
    assert_eq!(written(d), (-25, 1));
    let d = Amount::new(-3, 0).minus(Amount::new(5, 1));
    assert_eq!(written(d), (-35, 1));
}

#[test]
fn difference_with_zero() {
    let d = Amount::new(0, 0).minus(Amount::new(1000, 2));
    assert_eq!(written(d), (-1000, 2));
    let d = Amount::new(0, 4).minus(Amount::new(-1000, 2));
    assert_eq!(written(d), (1000, 2));
    let d = Amount::new(1000, 2).minus(Amount::new(0, 4));
    assert_eq!(written(d), (1000, 2));
    let d = Amount::new(0, 3).minus(Amount::new(0, 1));
    assert_eq!(written(d), (0, 1));
}

#[test]
fn checked_add_refuses_what_does_not_fit() {
    assert!(amount(MAX_MANTISSA, 0).checked_add(amount(1, 0)).is_none());
    assert!(amount(-MAX_MANTISSA, 0).checked_add(amount(-1, 0)).is_none());
    assert!(amount(MAX_MANTISSA, 4).checked_add(amount(1, 4)).is_none());
    // the operand with the smaller scale no longer fits at the larger one
    assert!(amount(MAX_MANTISSA, 0).checked_add(amount(1, 1)).is_none());
    assert!(amount(MAX_MANTISSA, 0).checked_add(amount(-1, 1)).is_none());
    let sum = amount(MAX_MANTISSA - 1, 0).checked_add(amount(1, 0)).unwrap();
    assert_eq!(written(sum), (MAX_MANTISSA, 0));
    let sum = amount(MAX_MANTISSA, 0).checked_add(amount(-1, 0)).unwrap();
    assert_eq!(written(sum), (MAX_MANTISSA - 1, 0));
}

#[test]
fn checked_sub_refuses_what_does_not_fit() {
    assert!(amount(MAX_MANTISSA, 0).checked_sub(amount(-1, 0)).is_none());
    assert!(amount(-MAX_MANTISSA, 0).checked_sub(amount(1, 0)).is_none());
    assert!(amount(MAX_MANTISSA, 0).checked_sub(amount(1, 1)).is_none());
    let d = amount(MAX_MANTISSA, 0).checked_sub(amount(MAX_MANTISSA, 0)).unwrap();
    assert_eq!(written(d), (0, 0));
    let d = amount(-MAX_MANTISSA, 0).checked_sub(amount(-1, 0)).unwrap();
    assert_eq!(written(d), (-MAX_MANTISSA + 1, 0));
}

#[test]
fn can_add_and_can_sub_say_when_the_result_is_exact() {
    assert!(Amount::new(1, 0).can_add(&Amount::new(1, 28)));
    assert!(amount(MAX_MANTISSA, 0).can_add(&amount(0, 28)));
    assert!(!amount(MAX_MANTISSA, 0).can_add(&amount(1, 0)));
    assert!(amount(MAX_MANTISSA, 0).can_sub(&amount(1, 0)));
    assert!(!amount(MAX_MANTISSA, 0).can_sub(&amount(-1, 0)));
    assert!(!amount(1i128 << 64, 0).can_add(&amount(1, 28)));
    assert!(amount(1i128 << 64, 0).can_add(&amount(1, 9)));
}

#[test]
fn sums_agree_with_decimal_on_every_sample() {
    let mut exact = 0;
    let mut refused = 0;
    for &ma in &sample_mantissas() {
        for &sa in &sample_scales() {
            for &mb in &sample_mantissas() {
                for &sb in &sample_scales() {
                    let a = amount(ma, sa);
                    let b = amount(mb, sb);
                    let expected = expected_sum((ma, sa), (mb, sb));
                    assert_eq!(a.can_add(&b), expected.is_some());
                    assert_eq!(a.checked_add(b).map(written), expected);
                    if let Some(sum) = expected {
                        let x = Decimal::from_i128_with_scale(ma, sa);
                        let y = Decimal::from_i128_with_scale(mb, sb);
                        let d = x + y;
                        assert_eq!((d.mantissa(), d.scale()), sum);
                        assert_eq!(written(a.plus(b)), sum);
                        exact += 1;
                    } else {
                        refused += 1;
                    }
                }
            }
        }
    }
    assert!(exact > 1000);
    assert!(refused > 1000);
}

#[test]
fn differences_agree_with_decimal_on_every_sample() {
    let mut exact = 0;
    let mut refused = 0;
    for &ma in &sample_mantissas() {
        for &sa in &sample_scales() {
            for &mb in &sample_mantissas() {
                for &sb in &sample_scales() {
                    let a = amount(ma, sa);
                    let b = amount(mb, sb);
                    let expected = expected_difference((ma, sa), (mb, sb));
                    assert_eq!(a.can_sub(&b), expected.is_some());
                    assert_eq!(a.checked_sub(b).map(written), expected);
                    if let Some(difference) = expected {
                        let x = Decimal::from_i128_with_scale(ma, sa);
                        let y = Decimal::from_i128_with_scale(mb, sb);
                        let d = x - y;
                        assert_eq!((d.mantissa(), d.scale()), difference);
                        assert_eq!(written(a.minus(b)), difference);
                        exact += 1;
                    } else {
                        refused += 1;
                    }
                }
            }
        }
    }
    assert!(exact > 1000);
    assert!(refused > 1000);
}

#[test]
fn text_has_four_digits_after_the_point() {
    assert_eq!(Amount::new(15, 1).to_text().unwrap(), "1.5000");
    assert_eq!(Amount::new(130000, 2).to_text().unwrap(), "1300.0000");
    assert_eq!(Amount::new(0, 0).to_text().unwrap(), "0.0000");
    assert_eq!(Amount::new(20001234, 4).to_text().unwrap(), "2000.1234");
    assert_eq!(Amount::new(-25, 1).to_text().unwrap(), "-2.5000");
    assert_eq!(Amount::new(7, 0).to_text().unwrap(), "7.0000");
    assert_eq!(Amount::new(1, 28).to_text().unwrap(), "0.0000");
}

#[test]
fn text_needs_fewer_than_28_digits_before_the_point() {
    let ten_to_27: i128 = 10i128.pow(27);
    assert!(amount(ten_to_27 - 1, 0).to_text().is_some());
    assert!(amount(ten_to_27, 0).to_text().is_none());
    assert!(amount(-ten_to_27, 0).to_text().is_none());
    assert!(amount(-ten_to_27 + 1, 0).to_text().is_some());
    assert!(amount(ten_to_27 * 10 - 1, 1).to_text().is_some());
    assert!(amount(ten_to_27 * 10, 1).to_text().is_none());
    assert!(amount(MAX_MANTISSA, 0).to_text().is_none());
    assert!(amount(MAX_MANTISSA, 1).to_text().is_none());
    assert!(amount(MAX_MANTISSA, 2).to_text().is_some());
    assert!(amount(MAX_MANTISSA, 28).to_text().is_some());
    assert_eq!(
        amount(ten_to_27 - 1, 0).to_text().unwrap(),
        "999999999999999999999999999.0000"
    );
}

#[test]
fn text_agrees_with_decimal() {
    let mut written = 0;
    let mut refused = 0;
    for &m in &sample_mantissas() {
        for &s in &sample_scales() {
            let whole = m.abs() / 10i128.pow(s);
            match amount(m, s).to_text() {
                Some(text) => {
                    assert!(whole < 10i128.pow(27));
                    let d = Decimal::from_i128_with_scale(m, s);
                    assert_eq!(text, format!("{:.4}", d));
                    written += 1;
                }
                None => {
                    assert!(whole >= 10i128.pow(27));
                    refused += 1;
                }
            }
        }
    }
    assert!(written > 100);
    assert!(refused > 0);
}

#[test]
fn text_ends_in_a_point_and_four_digits() {
    for &m in &sample_mantissas() {
        for &s in &sample_scales() {
            if let Some(text) = amount(m, s).to_text() {
                let chars: Vec<char> = text.chars().collect();
                assert!(chars.len() >= 6);
                assert_eq!(chars[chars.len() - 5], '.');
                for c in &chars[chars.len() - 4..] {
                    assert!(c.is_ascii_digit());
                }
                assert!(chars[chars.len() - 6].is_ascii_digit());
            }
        }
    }
}

/// A fixed stream of numbers that look random.
struct Stream(u64);

impl Stream {
    fn next(&mut self) -> u64 {
        // a linear congruential generator, the constants are Knuth's
        self.0 = self
            .0
            .wrapping_mul(6364136223846793005)
            .wrapping_add(1442695040888963407);
        self.0 >> 11
    }

    /// 128 bits.
    fn wide(&mut self) -> u128 {
        ((self.next() as u128) << 64) | ((self.next() as u128) << 11) | (self.next() as u128)
    }

    /// An amount with a mantissa of up to 96 bits, short ones as likely as
    /// long ones.
    fn amount(&mut self) -> (i128, u32) {
        let bits = (self.next() % 97) as u32;
        let wide = self.wide();
        let magnitude = if bits == 0 {
            0
        } else {
            (wide >> (128 - bits)) as i128
        };
        let mantissa = if self.next() % 2 == 0 {
            magnitude
        } else {
            -magnitude
        };
        let scale = (self.next() % 29) as u32;
        (mantissa, scale)
    }
}

/// `a * b` in 256 bits, as the high and the low half.
fn wide_product(a: u128, b: u128) -> (u128, u128) {
    let mask = (1u128 << 64) - 1;
    let (a1, a0) = (a >> 64, a & mask);
    let (b1, b0) = (b >> 64, b & mask);
    let low = a0 * b0;
    let mid1 = a0 * b1;
    let mid2 = a1 * b0;
    let high = a1 * b1;
    let carry = (low >> 64) + (mid1 & mask) + (mid2 & mask);
    (
        high + (mid1 >> 64) + (mid2 >> 64) + (carry >> 64),
        (low & mask) | (carry << 64),
    )
}

/// Whether `a >= b` as numbers, by cross multiplication.
fn at_least(a: (i128, u32), b: (i128, u32)) -> bool {
    let left = wide_product(a.0.unsigned_abs(), 10u128.pow(28 - a.1));
    let right = wide_product(b.0.unsigned_abs(), 10u128.pow(28 - b.1));
    match (a.0 < 0, b.0 < 0) {
        (false, false) => left >= right,
        (true, true) => left <= right,
        (false, true) => true,
        (true, false) => left == (0, 0) && right == (0, 0),
    }
}

#[test]
fn arithmetic_is_exact_on_a_stream_of_amounts() {
    let mut stream = Stream(2024);
    let mut sums = 0;
    let mut differences = 0;
    for _ in 0..40000 {
        let (ma, sa) = stream.amount();
        let (mb, sb) = stream.amount();
        let a = amount(ma, sa);
        let b = amount(mb, sb);

        let sum = expected_sum((ma, sa), (mb, sb));
        assert_eq!(a.can_add(&b), sum.is_some());
        assert_eq!(a.checked_add(b).map(written), sum);
        if sum.is_some() {
            sums += 1;
        }

        let difference = expected_difference((ma, sa), (mb, sb));
        assert_eq!(a.can_sub(&b), difference.is_some());
        assert_eq!(a.checked_sub(b).map(written), difference);
        if difference.is_some() {
            differences += 1;
        }

        assert_eq!(a.ge(&b), at_least((ma, sa), (mb, sb)));
        assert_eq!(b.ge(&a), at_least((mb, sb), (ma, sa)));
        assert_eq!(a == b, a.ge(&b) && b.ge(&a));
    }
    assert!(sums > 5000);
    assert!(differences > 5000);
}

#[test]
fn comparison_is_exact_on_every_sample() {
    for &ma in &sample_mantissas() {
        for &sa in &sample_scales() {
            for &mb in &sample_mantissas() {
                for &sb in &sample_scales() {
                    assert_eq!(
                        amount(ma, sa).ge(&amount(mb, sb)),
                        at_least((ma, sa), (mb, sb))
                    );
                }
            }
        }
    }
}

#[test]
fn sum_and_difference_undo_each_other() {
    let mut stream = Stream(7);
    let mut checked = 0;
    for _ in 0..20000 {
        let (ma, sa) = stream.amount();
        let (mb, sb) = stream.amount();
        let a = amount(ma, sa);
        let b = amount(mb, sb);
        if let Some(sum) = a.checked_add(b) {
            if let Some(back) = sum.checked_sub(b) {
                assert_eq!(back, a);
                checked += 1;
            }
        }
    }
    assert!(checked > 1000);
}

#[test]
fn operand_may_outgrow_96_bits_where_the_result_does_not() {
    let ten_to_28 = 10i128.pow(28);
    // 10^28 taken at scale 1 has 97 bits; less 5 * 10^27 it has 96
    let sum = amount(ten_to_28, 0)
        .checked_add(amount(-5 * ten_to_28, 1))
        .unwrap();
    assert_eq!(written(sum), (5 * ten_to_28, 1));
    let sum = amount(-5 * ten_to_28, 1)
        .checked_add(amount(ten_to_28, 0))
        .unwrap();
    assert_eq!(written(sum), (5 * ten_to_28, 1));
    let difference = amount(-ten_to_28, 0)
        .checked_sub(amount(-5 * ten_to_28, 1))
        .unwrap();
    assert_eq!(written(difference), (-5 * ten_to_28, 1));
    let difference = amount(5 * ten_to_28, 1)
        .checked_sub(amount(ten_to_28, 0))
        .unwrap();
    assert_eq!(written(difference), (-5 * ten_to_28, 1));
    // one step further and the result has 97 bits too
    assert!(amount(ten_to_28, 0)
        .checked_add(amount(-2 * ten_to_28, 1))
        .is_none());
}

#[test]
fn arithmetic_is_exact_where_an_operand_outgrows_96_bits() {
    let mut stream = Stream(99);
    let mut checked = 0;
    for _ in 0..200000 {
        // `a` has the smaller scale and, taken at the scale of `b`, between
        // 96 and 97 bits
        let sa = (stream.next() % 28) as u32;
        let up = 1 + (stream.next() % (28 - sa) as u64) as u32;
        let sb = sa + up;
        let power = 10i128.pow(up);
        let low = MAX_MANTISSA / power + 1;
        let high = ((2 * MAX_MANTISSA) / power).min(MAX_MANTISSA);
        if high < low {
            continue;
        }
        let ma = low + (stream.wide() % (high - low + 1) as u128) as i128;
        // `b` has the other sign and brings the sum back under 96 bits
        let least = ma * power - MAX_MANTISSA;
        if least > MAX_MANTISSA {
            continue;
        }
        let mb = -(least + (stream.wide() % (MAX_MANTISSA - least + 1) as u128) as i128);
        let (ma, mb) = if stream.next() % 2 == 0 {
            (ma, mb)
        } else {
            (-ma, -mb)
        };
        let a = amount(ma, sa);
        let b = amount(mb, sb);
        assert_eq!(written(a.checked_add(b).unwrap()), (ma * power + mb, sb));
        assert_eq!(written(b.checked_add(a).unwrap()), (ma * power + mb, sb));
        let c = amount(-mb, sb);
        assert_eq!(written(a.checked_sub(c).unwrap()), (ma * power + mb, sb));
        assert_eq!(written(c.checked_sub(a).unwrap()), (-ma * power - mb, sb));
        let x = Decimal::from_i128_with_scale(ma, sa);
        let y = Decimal::from_i128_with_scale(mb, sb);
        assert_eq!((x + y).mantissa(), ma * power + mb);
        assert_eq!((x + y).scale(), sb);
        checked += 1;
    }
    assert!(checked > 100000);
}
