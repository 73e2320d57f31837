//! A fixed-point value for price display: an integer and how many of its
//! trailing digits sit behind the decimal point.

use vstd::prelude::*;

verus! {

/// A non-negative fixed-point value for display.
#[derive(Clone, Copy, PartialEq, Eq, Structural, Debug, Default)]
pub struct Decimal {
    /// The scaled integer value.
    pub value: i128,
    /// How many trailing digits of `value` sit behind the decimal point.
    pub decimals: u32,
}

/// The digit character of one decimal digit.
pub open spec fn digit_char(d: int) -> char {
    if d == 0 {
        '0'
    } else if d == 1 {
        '1'
    } else if d == 2 {
        '2'
    } else if d == 3 {
        '3'
    } else if d == 4 {
        '4'
    } else if d == 5 {
        '5'
    } else if d == 6 {
        '6'
    } else if d == 7 {
        '7'
    } else if d == 8 {
        '8'
    } else {
        '9'
    }
}

/// The decimal digit characters of a non-negative integer, most significant
/// first.
pub open spec fn decimal_digits(n: int) -> Seq<char>
    decreases n,
{
    if n < 10 {
        seq![digit_char(n)]
    } else {
        decimal_digits(n / 10).push(digit_char(n % 10))
    }
}

/// `n` zero characters.
pub open spec fn zero_chars(n: int) -> Seq<char> {
    Seq::new(n as nat, |i: int| '0')
}

/// How a fixed-point value displays: when it has no digit in front of the
/// point, as `0.` followed by the zero-padded digits; otherwise as its
/// digits with the point inserted before the last `decimals` of them.
pub open spec fn decimal_display(value: int, decimals: int) -> Seq<char> {
    let s = decimal_digits(value);
    if s.len() <= decimals {
        seq!['0', '.'] + zero_chars(decimals - s.len()) + s
    } else {
        s.subrange(0, s.len() - decimals) + seq!['.'] + s.subrange(
            s.len() - decimals,
            s.len() as int,
        )
    }
}

/// The digit characters of the digit values in `v`.
pub open spec fn digit_chars_of(v: Seq<u8>) -> Seq<char> {
    v.map_values(|d: u8| digit_char(d as int))
}

/// One digit as text.
fn digit_str(d: u8) -> (r: &'static str)
    requires
        d < 10,
    ensures
        r@ == seq![digit_char(d as int)],
{
    proof {
        reveal_strlit("0");
        reveal_strlit("1");
        reveal_strlit("2");
        reveal_strlit("3");
        reveal_strlit("4");
        reveal_strlit("5");
        reveal_strlit("6");
        reveal_strlit("7");
        reveal_strlit("8");
        reveal_strlit("9");
    }
    let r = match d {
        0 => "0",
        1 => "1",
        2 => "2",
        3 => "3",
        4 => "4",
        5 => "5",
        6 => "6",
        7 => "7",
        8 => "8",
        _ => "9",
    };
    proof {
        assert(r@ =~= seq![digit_char(d as int)]);
    }
    r
}

/// The decimal digit values of a non-negative integer, most significant
/// first.
fn decimal_digit_values(n: i128) -> (r: Vec<u8>)
    requires
        n >= 0,
    ensures
        digit_chars_of(r@) == decimal_digits(n as int),
        r@.len() >= 1,
        forall|i: int| 0 <= i < r@.len() ==> r@[i] < 10,
    decreases n,
{
    if n < 10 {
        let mut v: Vec<u8> = Vec::new();
        v.push(n as u8);
        proof {
            assert(digit_chars_of(v@) =~= decimal_digits(n as int));
        }
        v
    } else {
        let mut v = decimal_digit_values(n / 10);
        let ghost before = v@;
        v.push((n % 10) as u8);
        proof {
            assert(digit_chars_of(v@) =~= digit_chars_of(before).push(
                digit_char((n % 10) as int),
            ));
        }
        v
    }
}

/// Appends the digit characters of `digits[from..to]`.
fn append_digits(out: &mut String, digits: &Vec<u8>, from: usize, to: usize)
    requires
        from <= to <= digits@.len(),
        forall|i: int| 0 <= i < digits@.len() ==> digits@[i] < 10,
    ensures
        final(out)@ == old(out)@ + digit_chars_of(digits@.subrange(from as int, to as int)),
{
    let mut i: usize = from;
    while i < to
        invariant
            from <= i <= to <= digits@.len(),
            forall|k: int| 0 <= k < digits@.len() ==> digits@[k] < 10,
            out@ == old(out)@ + digit_chars_of(digits@.subrange(from as int, i as int)),
        decreases to - i,
    {
        out.append(digit_str(digits[i]));
        proof {
            assert(digit_chars_of(digits@.subrange(from as int, i + 1 as int)) =~= digit_chars_of(
                digits@.subrange(from as int, i as int),
            ).push(digit_char(digits@[i as int] as int)));
            assert(out@ =~= old(out)@ + digit_chars_of(
                digits@.subrange(from as int, i + 1 as int),
            ));
        }
        i = i + 1;
    }
    proof {
        assert(out@ =~= old(out)@ + digit_chars_of(digits@.subrange(from as int, i as int)));
    }
}

impl Decimal {
    /// Packs a scaled integer and its decimal-place count.
    pub fn new(value: i128, decimals: u32) -> (r: Decimal)
        ensures
            r == (Decimal { value, decimals }),
    {
        Decimal { value, decimals }
    }

    /// Renders the value with its decimal point placed.
    pub fn to_display_string(&self) -> (r: String)
        requires
            self.value >= 0,
        ensures
            r@ == decimal_display(self.value as int, self.decimals as int),
    {
        let digits = decimal_digit_values(self.value);
        let dl = digits.len();
        let mut out = String::new();
        if dl <= self.decimals as usize {
            proof {
                reveal_strlit("0.");
            }
            out.append("0.");
            proof {
                assert(out@ =~= seq!['0', '.']);
            }
            let pad = self.decimals as usize - dl;
            let ghost out_head = out@;
            let mut z: usize = 0;
            while z < pad
                invariant
                    z <= pad,
                    out@ == out_head + zero_chars(z as int),
                decreases pad - z,
            {
                proof {
                    reveal_strlit("0");
                }
                out.append("0");
                proof {
                    assert(out@ =~= out_head + zero_chars(z + 1 as int));
                }
                z = z + 1;
            }
            append_digits(&mut out, &digits, 0, dl);
            proof {
                assert(digits@.subrange(0, dl as int) =~= digits@);
                assert(out@ =~= decimal_display(self.value as int, self.decimals as int));
            }
            out
        } else {
            let cut = dl - self.decimals as usize;
            append_digits(&mut out, &digits, 0, cut);
            proof {
                reveal_strlit(".");
            }
            out.append(".");
            append_digits(&mut out, &digits, cut, dl);
            proof {
                assert(("."@) =~= seq!['.']);
                assert(out@ =~= decimal_display(self.value as int, self.decimals as int));
            }
            out
        }
    }
}

} // verus!
