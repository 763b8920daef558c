//! Two-factor codes: six decimal digits, the first of them not zero.

use vstd::prelude::*;
use vstd::string::*;
use vstd::utf8::*;

verus! {

/// Smallest number that a code stands for.
pub const MIN_CODE: u32 = 100_000;

/// Largest number that a code stands for.
pub const MAX_CODE: u32 = 999_999;

/// Whether `c` is one of the ASCII digits.
pub open spec fn is_digit(c: char) -> bool {
    '0' <= c <= '9'
}

/// The number that the digit `c` stands for.
pub open spec fn digit_value(c: char) -> nat {
    (c as nat - '0' as nat) as nat
}

/// The digit that stands for `d`, for `d` below ten.
pub open spec fn digit_char(d: nat) -> char {
    seq!['0', '1', '2', '3', '4', '5', '6', '7', '8', '9'][d as int]
}

/// The number that a text of digits stands for in base ten.
pub open spec fn decimal_value(digits: Seq<char>) -> nat
    decreases digits.len(),
{
    if digits.len() == 0 {
        0
    } else {
        decimal_value(digits.drop_last()) * 10 + digit_value(digits.last())
    }
}

/// Whether `text` is a two-factor code: six ASCII digits that stand for a
/// number from 100000 to 999999.
pub open spec fn is_code(text: Seq<char>) -> bool {
    &&& text.len() == 6
    &&& forall|i: int| 0 <= i < 6 ==> is_digit(#[trigger] text[i])
    &&& MIN_CODE <= decimal_value(text) <= MAX_CODE
}

/// The six digits of `number`, highest first.
pub open spec fn code_text(number: nat) -> Seq<char> {
    seq![
        digit_char(number / 100_000 % 10),
        digit_char(number / 10_000 % 10),
        digit_char(number / 1_000 % 10),
        digit_char(number / 100 % 10),
        digit_char(number / 10 % 10),
        digit_char(number % 10),
    ]
}

/// What parsing makes of `text`: the text itself where it is a code, else
/// nothing.
pub open spec fn parsed(text: Seq<char>) -> Option<Seq<char>> {
    if is_code(text) {
        Some(text)
    } else {
        None
    }
}

/// The message with which a text that is no code is rejected.
pub open spec fn rejection() -> Seq<char> {
    "Invalid code"@
}

/// The digits of a number in range are a code, and stand for that number.
pub proof fn lemma_code_text_is_code(number: nat)
    requires
        MIN_CODE <= number <= MAX_CODE,
    ensures
        is_code(code_text(number)),
        decimal_value(code_text(number)) == number,
{
    let text = code_text(number);
    let t5 = text.drop_last();
    let t4 = t5.drop_last();
    let t3 = t4.drop_last();
    let t2 = t3.drop_last();
    let t1 = t2.drop_last();
    let t0 = t1.drop_last();
    assert(t0.len() == 0);
    assert(decimal_value(t0) == 0);
    assert(decimal_value(t1) == number / 100_000 % 10);
    assert(decimal_value(t2) == decimal_value(t1) * 10 + number / 10_000 % 10);
    assert(decimal_value(t3) == decimal_value(t2) * 10 + number / 1_000 % 10);
    assert(decimal_value(t4) == decimal_value(t3) * 10 + number / 100 % 10);
    assert(decimal_value(t5) == decimal_value(t4) * 10 + number / 10 % 10);
    assert(decimal_value(text) == decimal_value(t5) * 10 + number % 10);
}

/// Six digits that begin with a zero stand for a number below 100000 and
/// are no code.
pub proof fn lemma_leading_zero_is_no_code(text: Seq<char>)
    requires
        text.len() == 6,
        forall|i: int| 0 <= i < 6 ==> is_digit(#[trigger] text[i]),
        text[0] == '0',
    ensures
        decimal_value(text) < MIN_CODE,
        !is_code(text),
{
    let t5 = text.drop_last();
    let t4 = t5.drop_last();
    let t3 = t4.drop_last();
    let t2 = t3.drop_last();
    let t1 = t2.drop_last();
    let t0 = t1.drop_last();
    assert(t0.len() == 0);
    assert(decimal_value(t0) == 0);
    assert(t1.last() == text[0]);
    assert(t2.last() == text[1]);
    assert(t3.last() == text[2]);
    assert(t4.last() == text[3]);
    assert(t5.last() == text[4]);
    assert(decimal_value(t1) == 0);
    assert(decimal_value(t2) <= 9);
    assert(decimal_value(t3) <= 99);
    assert(decimal_value(t4) <= 999);
    assert(decimal_value(t5) <= 9_999);
    assert(decimal_value(text) <= 99_999);
}

/// A text that is not six characters long, or holds a character that is no
/// digit, is no code.
pub proof fn lemma_malformed_is_no_code(text: Seq<char>)
    requires
        text.len() != 6 || exists|i: int| 0 <= i < text.len() && !is_digit(#[trigger] text[i]),
    ensures
        !is_code(text),
{
}

/// A code that was drawn is parsed as itself: the digits of every number in
/// range, read as a text, are accepted unchanged.
pub proof fn lemma_drawn_code_round_trips(number: nat)
    requires
        MIN_CODE <= number <= MAX_CODE,
    ensures
        parsed(code_text(number)) == Some(code_text(number)),
{
    lemma_code_text_is_code(number);
}

/// Calls `rand::Rng::gen_range` on `rand::thread_rng()` with the range from
/// `low` to `high`, both ends counted. The call panics on an empty range; what
/// comes back lies in the range.
#[verifier::external_body]
fn random_between(low: u32, high: u32) -> (number: u32)
    requires
        low <= high,
    ensures
        low <= number <= high,
{
    rand::Rng::gen_range(&mut rand::thread_rng(), low..=high)
}

/// The text of one digit.
fn digit_text(d: u32) -> (text: &'static str)
    requires
        d < 10,
    ensures
        text@ == seq![digit_char(d as nat)],
{
    proof {
        reveal_strlit("0");
        reveal_strlit("1");
        reveal_strlit("2");
        reveal_strlit("3");
        reveal_strlit("4");
        reveal_strlit("5");
        reveal_strlit("6");
        reveal_strlit("7");
        reveal_strlit("8");
        reveal_strlit("9");
    }
    let text = match d {
        0 => "0",
        1 => "1",
        2 => "2",
        3 => "3",
        4 => "4",
        5 => "5",
        6 => "6",
        7 => "7",
        8 => "8",
        _ => "9",
    };
    assert(text@ =~= seq![digit_char(d as nat)]);
    text
}

/// Whether `text` is a code.
fn recognise(text: &str) -> (accepted: bool)
    ensures
        accepted == is_code(text@),
{
    if !text.is_ascii() {
        assert(!is_code(text@)) by {
            if is_code(text@) {
                assert forall|i: int| 0 <= i < text@.len() implies '\0' <= #[trigger] text@[i]
                    <= '\u{7f}' by {
                    assert(is_digit(text@[i]));
                }
            }
        }
        return false;
    }
    proof {
        is_ascii_chars_encode_utf8(text@);
    }
    if text.as_bytes().len() != 6 {
        return false;
    }
    let mut value: u32 = 0;
    let mut i: usize = 0;
    while i < 6
        invariant
            i <= 6,
            text@.len() == 6,
            is_ascii_chars(text@),
            forall|j: int| 0 <= j < i ==> is_digit(#[trigger] text@[j]),
            value == decimal_value(text@.subrange(0, i as int)),
            value <= seq![0int, 9, 99, 999, 9_999, 99_999, 999_999][i as int],
        decreases 6 - i,
    {
        let byte: u8 = text.get_ascii(i);
        if byte < 48 || byte > 57 {
            assert(!is_digit(text@[i as int]));
            return false;
        }
        proof {
            let before = text@.subrange(0, i as int);
            let upto = text@.subrange(0, i + 1);
            assert(upto.drop_last() =~= before);
            assert(upto.last() == text@[i as int]);
            assert(digit_value(text@[i as int]) == byte - 48);
            assert(is_digit(text@[i as int]));
        }
        value = value * 10 + (byte - 48) as u32;
        i += 1;
    }
    assert(text@.subrange(0, 6) =~= text@);
    MIN_CODE <= value
}

/// A two-factor code.
#[derive(Debug)]
pub struct TwoFACode(String);

impl View for TwoFACode {
    type V = Seq<char>;

    closed spec fn view(&self) -> Seq<char> {
        self.0@
    }
}

impl TwoFACode {
    #[verifier::type_invariant]
    spec fn well_formed(self) -> bool {
        is_code(self.0@)
    }

    /// Accepts `code` exactly when it is six ASCII digits that stand for a
    /// number from 100000 to 999999.
    pub fn parse(code: String) -> (res: Result<Self, String>)
        ensures
            match parsed(code@) {
                Some(text) => res matches Ok(code) && code@ == text,
                None => res matches Err(msg) && msg@ == rejection(),
            },
    {
        if recognise(code.as_str()) {
            Ok(TwoFACode(code))
        } else {
            Err("Invalid code".to_owned())
        }
    }

    /// The code that stands for `number`, where there is one.
    pub fn from_number(number: u32) -> (res: Option<Self>)
        ensures
            MIN_CODE <= number <= MAX_CODE ==> (res matches Some(code) && code@ == code_text(
                number as nat,
            ) && decimal_value(code@) == number),
            !(MIN_CODE <= number <= MAX_CODE) ==> res is None,
    {
        if number < MIN_CODE || number > MAX_CODE {
            None
        } else {
            Some(Self::render(number))
        }
    }

    /// The code made of the six digits of `number`.
    fn render(number: u32) -> (code: Self)
        requires
            MIN_CODE <= number <= MAX_CODE,
        ensures
            code@ == code_text(number as nat),
            decimal_value(code@) == number,
            is_code(code@),
    {
        let mut text = String::new();
        text.append(digit_text(number / 100_000 % 10));
        text.append(digit_text(number / 10_000 % 10));
        text.append(digit_text(number / 1_000 % 10));
        text.append(digit_text(number / 100 % 10));
        text.append(digit_text(number / 10 % 10));
        text.append(digit_text(number % 10));
        proof {
            assert(text@ =~= code_text(number as nat));
            lemma_code_text_is_code(number as nat);
        }
        TwoFACode(text)
    }

    /// A fresh code, drawn at random from all codes.
    pub fn generate() -> (code: Self)
        ensures
            is_code(code@),
            parsed(code@) == Some(code@),
            exists|number: nat| MIN_CODE <= number <= MAX_CODE && code@ == code_text(number),
    {
        Self::render(random_between(MIN_CODE, MAX_CODE))
    }

    /// The code's text.
    pub fn as_ref(&self) -> (text: &str)
        ensures
            text@ == self@,
            is_code(text@),
    {
        proof {
            use_type_invariant(self);
        }
        self.0.as_str()
    }
}

impl Default for TwoFACode {
    fn default() -> (code: Self)
        ensures
            is_code(code@),
    {
        Self::generate()
    }
}

impl Clone for TwoFACode {
    fn clone(&self) -> (copy: Self)
        ensures
            copy@ == self@,
    {
        proof {
            use_type_invariant(self);
        }
        TwoFACode(self.0.clone())
    }
}

impl PartialEq for TwoFACode {
    fn eq(&self, other: &Self) -> (equal: bool) {
        self.0 == other.0
    }
}

impl Eq for TwoFACode {

}

impl vstd::std_specs::cmp::PartialEqSpecImpl for TwoFACode {
    open spec fn obeys_eq_spec() -> bool {
        true
    }

    open spec fn eq_spec(&self, other: &Self) -> bool {
        self@ == other@
    }
}

} // verus!
