//! Codes as fixed-width decimal text, and the generator that draws them.

use vstd::prelude::*;
use vstd::string::StringExecFns;

verus! {

/// The number of digits of a code.
pub const CODE_WIDTH: usize = 6;

/// The number of different codes: ten to the power of `CODE_WIDTH`.
pub const CODE_SPACE: u32 = 1_000_000;

/// The character that writes the decimal digit `d`.
pub open spec fn digit_char(d: nat) -> char {
    if d == 0 {
        '0'
    } else if d == 1 {
        '1'
    } else if d == 2 {
        '2'
    } else if d == 3 {
        '3'
    } else if d == 4 {
        '4'
    } else if d == 5 {
        '5'
    } else if d == 6 {
        '6'
    } else if d == 7 {
        '7'
    } else if d == 8 {
        '8'
    } else {
        '9'
    }
}

/// The decimal digit that `c` writes; 0 for a character that writes none.
pub open spec fn digit_value(c: char) -> nat {
    if c == '1' {
        1
    } else if c == '2' {
        2
    } else if c == '3' {
        3
    } else if c == '4' {
        4
    } else if c == '5' {
        5
    } else if c == '6' {
        6
    } else if c == '7' {
        7
    } else if c == '8' {
        8
    } else if c == '9' {
        9
    } else {
        0
    }
}

/// Whether `c` is one of the ten decimal digits.
pub open spec fn is_digit(c: char) -> bool {
    c == digit_char(digit_value(c))
}

/// The last `width` decimal digits of `n`, most significant first: `n` written
/// in decimal and padded with zeros on the left, where `n` has at most `width`
/// digits.
pub open spec fn code_text(n: nat, width: nat) -> Seq<char>
    decreases width,
{
    if width == 0 {
        Seq::empty()
    } else {
        code_text(n / 10, (width - 1) as nat).push(digit_char(n % 10))
    }
}

/// The number that a text of decimal digits writes.
pub open spec fn code_value(text: Seq<char>) -> nat
    decreases text.len(),
{
    if text.len() == 0 {
        0
    } else {
        10 * code_value(text.drop_last()) + digit_value(text.last())
    }
}

/// Ten to the power of `k`.
pub open spec fn pow10(k: nat) -> nat
    decreases k,
{
    if k == 0 {
        1
    } else {
        10 * pow10((k - 1) as nat)
    }
}

/// Whether `text` has the shape of a code: exactly `width` decimal digits.
pub open spec fn is_code(text: Seq<char>, width: nat) -> bool {
    &&& text.len() == width
    &&& forall|i: int| 0 <= i < text.len() ==> is_digit(#[trigger] text[i])
}

/// Every number, written at any width, has the shape of a code of that width.
pub proof fn lemma_code_text_is_code(n: nat, width: nat)
    ensures
        is_code(code_text(n, width), width),
    decreases width,
{
    if width > 0 {
        lemma_code_text_is_code(n / 10, (width - 1) as nat);
    }
}

/// A number below ten to the power of `width` can be read back from its code,
/// so different numbers in that range have different codes.
pub proof fn lemma_code_value_of_text(n: nat, width: nat)
    requires
        n < pow10(width),
    ensures
        code_value(code_text(n, width)) == n,
    decreases width,
{
    if width > 0 {
        let shorter = code_text(n / 10, (width - 1) as nat);
        lemma_code_value_of_text(n / 10, (width - 1) as nat);
        assert(code_text(n, width).drop_last() == shorter);
        assert(code_text(n, width).last() == digit_char(n % 10));
    }
}

/// The code space is ten to the power of the code width.
pub proof fn lemma_code_space()
    ensures
        CODE_SPACE == pow10(CODE_WIDTH as nat),
{
    reveal_with_fuel(pow10, 7);
}

/// The one-character text of a decimal digit.
fn digit_text(d: u32) -> (text: &'static str)
    requires
        d < 10,
    ensures
        text@ == seq![digit_char(d as nat)],
{
    proof {
        reveal_strlit("0");
        reveal_strlit("1");
        reveal_strlit("2");
        reveal_strlit("3");
        reveal_strlit("4");
        reveal_strlit("5");
        reveal_strlit("6");
        reveal_strlit("7");
        reveal_strlit("8");
        reveal_strlit("9");
    }
    let text = if d == 0 {
        "0"
    } else if d == 1 {
        "1"
    } else if d == 2 {
        "2"
    } else if d == 3 {
        "3"
    } else if d == 4 {
        "4"
    } else if d == 5 {
        "5"
    } else if d == 6 {
        "6"
    } else if d == 7 {
        "7"
    } else if d == 8 {
        "8"
    } else {
        "9"
    };
    assert(text@ =~= seq![digit_char(d as nat)]);
    text
}

/// Writes `n` as a code: in decimal, padded with zeros to `CODE_WIDTH` digits.
pub fn format_code(n: u32) -> (code: String)
    requires
        n < CODE_SPACE,
    ensures
        code@ == code_text(n as nat, CODE_WIDTH as nat),
        is_code(code@, CODE_WIDTH as nat),
        code_value(code@) == n,
{
    let mut code = String::new();
    let mut rest: u32 = n;
    let mut written: usize = 0;
    while written < CODE_WIDTH
        invariant
            written <= CODE_WIDTH,
            code_text(n as nat, CODE_WIDTH as nat) == code_text(
                rest as nat,
                (CODE_WIDTH - written) as nat,
            ) + code@,
        decreases CODE_WIDTH - written,
    {
        let digit = digit_text(rest % 10);
        let ghost before = code@;
        code = String::from_str(digit).concat(code.as_str());
        proof {
            let left = (CODE_WIDTH - written) as nat;
            assert(code_text(rest as nat, left) == code_text(
                rest as nat / 10,
                (left - 1) as nat,
            ).push(digit_char(rest as nat % 10)));
            assert(code_text(rest as nat, left) + before =~= code_text(
                rest as nat / 10,
                (left - 1) as nat,
            ) + code@);
        }
        rest = rest / 10;
        written = written + 1;
    }
    proof {
        assert(code_text(rest as nat, 0) + code@ =~= code@);
        lemma_code_text_is_code(n as nat, CODE_WIDTH as nat);
        lemma_code_space();
        lemma_code_value_of_text(n as nat, CODE_WIDTH as nat);
    }
    code
}

/// Draws a number below `bound` from the thread's random number generator.
///
/// Calls `rand::thread_rng()` and `Rng::gen_range` on the range from 0 up to,
/// not including, `bound`. The contract claims only what holds of every draw:
/// the number lies in that range. `gen_range` panics on an empty range, which
/// `requires` leaves out.
#[verifier::external_body]
fn random_below(bound: u32) -> (n: u32)
    requires
        bound > 0,
    ensures
        n < bound,
{
    rand::Rng::gen_range(&mut rand::thread_rng(), 0..bound)
}

/// The collaborator that produces the text of a new code.
pub trait Generator {
    /// A new code: `CODE_WIDTH` decimal digits. Codes need not differ from
    /// call to call.
    fn generate(&self) -> (code: String)
        ensures
            is_code(code@, CODE_WIDTH as nat),
    ;
}

/// A generator that draws each code uniformly from the whole code space.
#[derive(Debug, Clone, Copy)]
pub struct RandomGenerator;

impl Default for RandomGenerator {
    fn default() -> (generator: RandomGenerator)
        ensures
            generator == RandomGenerator,
    {
        RandomGenerator
    }
}

impl Generator for RandomGenerator {
    /// A code of `CODE_WIDTH` decimal digits: some number below `CODE_SPACE`,
    /// padded with zeros.
    fn generate(&self) -> (code: String)
        ensures
            code_value(code@) < CODE_SPACE,
            code@ == code_text(code_value(code@), CODE_WIDTH as nat),
    {
        let n = random_below(CODE_SPACE);
        format_code(n)
    }
}

} // verus!
