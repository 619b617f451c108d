//! Reading of short texts: comparison without regard to the case of ASCII
//! letters, and unsigned decimal numerals.

use vstd::prelude::*;
use vstd::string::*;

verus! {

/// The lower-case form of an ASCII capital letter; every other character is
/// left as it is.
pub open spec fn lower(c: char) -> char {
    if 'A' <= c && c <= 'Z' {
        ((c as int) + 32) as char
    } else {
        c
    }
}

/// Two texts are the same up to the case of their ASCII letters.
pub open spec fn same_ignoring_case(a: Seq<char>, b: Seq<char>) -> bool {
    &&& a.len() == b.len()
    &&& forall|i: int| 0 <= i < a.len() ==> lower(#[trigger] a[i]) == lower(b[i])
}

/// Every character of the text is an ASCII character.
pub open spec fn ascii(s: Seq<char>) -> bool {
    vstd::utf8::is_ascii_chars(s)
}

/// `c` is one of the ten decimal digits.
pub open spec fn is_digit(c: char) -> bool {
    '0' <= c && c <= '9'
}

/// The number that a decimal digit stands for.
pub open spec fn digit_value(c: char) -> int {
    (c as int) - ('0' as int)
}

/// Every character of the text is a decimal digit.
pub open spec fn all_digits(s: Seq<char>) -> bool {
    forall|i: int| 0 <= i < s.len() ==> is_digit(#[trigger] s[i])
}

/// The number that a run of decimal digits denotes, the most significant
/// digit first. The empty run denotes zero.
pub open spec fn decimal_value(s: Seq<char>) -> int
    decreases s.len(),
{
    if s.len() == 0 {
        0
    } else {
        decimal_value(s.drop_last()) * 10 + digit_value(s.last())
    }
}

/// The text without the plus sign that may lead a numeral.
pub open spec fn unsigned_part(s: Seq<char>) -> Seq<char> {
    if s.len() > 0 && s[0] == '+' {
        s.subrange(1, s.len() as int)
    } else {
        s
    }
}

/// The text is an unsigned decimal numeral: an optional plus sign, then at
/// least one decimal digit, and nothing else.
pub open spec fn is_numeral(s: Seq<char>) -> bool {
    unsigned_part(s).len() > 0 && all_digits(unsigned_part(s))
}

/// The number that a numeral denotes.
pub open spec fn numeral_value(s: Seq<char>) -> int {
    decimal_value(unsigned_part(s))
}

/// The character that writes a number below ten.
pub open spec fn digit_char(d: int) -> char {
    (d + ('0' as int)) as char
}

/// The usual way to write a natural number: decimal, without sign and
/// without leading zeros.
pub open spec fn numeral(n: nat) -> Seq<char>
    decreases n,
{
    if n < 10 {
        seq![digit_char(n as int)]
    } else {
        numeral(n / 10).push(digit_char((n % 10) as int))
    }
}

/// A run of digits never denotes a negative number, and appending a digit
/// never makes the number smaller.
pub proof fn lemma_decimal_value_grows(s: Seq<char>)
    requires
        all_digits(s),
    ensures
        decimal_value(s) >= 0,
        s.len() > 0 ==> decimal_value(s) >= decimal_value(s.drop_last()),
    decreases s.len(),
{
    if s.len() > 0 {
        let front = s.drop_last();
        assert forall|i: int| 0 <= i < front.len() implies is_digit(#[trigger] front[i]) by {
            assert(front[i] == s[i]);
        }
        lemma_decimal_value_grows(front);
        assert(is_digit(s[s.len() - 1]));
    }
}

/// The usual numeral of a number is a numeral, and denotes that number.
pub proof fn lemma_numeral_reads_back(n: nat)
    ensures
        is_numeral(numeral(n)),
        numeral(n).len() > 0,
        all_digits(numeral(n)),
        numeral(n)[0] != '+',
        numeral_value(numeral(n)) == n,
        decimal_value(numeral(n)) == n,
    decreases n,
{
    if n < 10 {
        let s = numeral(n);
        assert(s.len() == 1);
        assert(s[0] == digit_char(n as int));
        assert(s.drop_last().len() == 0);
        assert(decimal_value(s.drop_last()) == 0);
        assert(s.last() == digit_char(n as int));
    } else {
        let front = numeral(n / 10);
        let s = front.push(digit_char((n % 10) as int));
        lemma_numeral_reads_back(n / 10);
        assert(s.drop_last() =~= front);
        assert(s.last() == digit_char((n % 10) as int));
        assert(s[0] == front[0]);
        assert forall|i: int| 0 <= i < s.len() implies is_digit(#[trigger] s[i]) by {
            if i < front.len() {
                assert(s[i] == front[i]);
            }
        }
    }
}

/// The lower-case form of an ASCII capital letter given as a byte.
fn lower_byte(b: u8) -> (l: u8)
    requires
        b < 128,
    ensures
        l as char == lower(b as char),
        l < 128,
{
    if b >= 65 && b <= 90 {
        b + 32
    } else {
        b
    }
}

/// The lower-case form of an ASCII capital letter.
fn lower_char(c: char) -> (l: char)
    ensures
        l == lower(c),
{
    if 'A' <= c && c <= 'Z' {
        (c as u8 + 32) as char
    } else {
        c
    }
}

/// Compares two ASCII texts byte by byte.
fn eq_ignoring_case_ascii(text: &str, word: &str) -> (same: bool)
    requires
        ascii(text@),
        ascii(word@),
    ensures
        same == same_ignoring_case(text@, word@),
{
    broadcast use is_ascii_spec_bytes;

    let a = text.as_bytes();
    let b = word.as_bytes();
    assert(is_ascii(text));
    assert(is_ascii(word));
    let n = a.len();
    if b.len() != n {
        return false;
    }
    let mut i: usize = 0;
    while i < n
        invariant
            i <= n,
            n == text@.len(),
            n == word@.len(),
            ascii(text@),
            ascii(word@),
            a@ == Seq::new(text@.len(), |k: int| text@.index(k) as u8),
            b@ == Seq::new(word@.len(), |k: int| word@.index(k) as u8),
            forall|j: int| 0 <= j < i ==> lower(#[trigger] text@[j]) == lower(word@[j]),
        decreases n - i,
    {
        assert('\0' <= text@[i as int] <= '\u{7f}');
        assert('\0' <= word@[i as int] <= '\u{7f}');
        if lower_byte(a[i]) != lower_byte(b[i]) {
            assert(lower(text@[i as int]) != lower(word@[i as int]));
            return false;
        }
        i = i + 1;
    }
    true
}

/// Compares two texts, taking an ASCII capital letter and its lower-case
/// form to be the same character. Characters outside ASCII are the same
/// only where they are equal.
pub fn eq_ignoring_case(text: &str, word: &str) -> (same: bool)
    ensures
        same == same_ignoring_case(text@, word@),
{
    let plain_text = text.is_ascii();
    let plain_word = word.is_ascii();
    if plain_text && plain_word {
        return eq_ignoring_case_ascii(text, word);
    }
    if plain_text != plain_word {
        proof {
            if same_ignoring_case(text@, word@) {
                if plain_text {
                    let i = choose|i: int|
                        0 <= i < word@.len() && !('\0' <= #[trigger] word@[i] <= '\u{7f}');
                    assert('\0' <= text@[i] <= '\u{7f}');
                    assert(lower(text@[i]) == lower(word@[i]));
                } else {
                    let i = choose|i: int|
                        0 <= i < text@.len() && !('\0' <= #[trigger] text@[i] <= '\u{7f}');
                    assert('\0' <= word@[i] <= '\u{7f}');
                    assert(lower(text@[i]) == lower(word@[i]));
                }
            }
        }
        return false;
    }
    let n = text.unicode_len();
    if word.unicode_len() != n {
        return false;
    }
    let mut i: usize = 0;
    while i < n
        invariant
            i <= n,
            n == text@.len(),
            n == word@.len(),
            forall|j: int| 0 <= j < i ==> lower(#[trigger] text@[j]) == lower(word@[j]),
        decreases n - i,
    {
        if lower_char(text.get_char(i)) != lower_char(word.get_char(i)) {
            return false;
        }
        i = i + 1;
    }
    true
}

/// Appending one digit to a run multiplies the number by ten and adds the
/// digit.
proof fn lemma_decimal_value_step(digits: Seq<char>, k: int)
    requires
        0 <= k < digits.len(),
    ensures
        decimal_value(digits.take(k + 1)) == decimal_value(digits.take(k)) * 10 + digit_value(
            digits[k],
        ),
{
    assert(digits.take(k + 1).drop_last() =~= digits.take(k));
    assert(digits.take(k + 1).last() == digits[k]);
}

/// A text with a character outside ASCII is no numeral.
proof fn lemma_numeral_is_ascii(s: Seq<char>)
    requires
        is_numeral(s),
    ensures
        ascii(s),
{
    let digits = unsigned_part(s);
    assert forall|i: int| 0 <= i < s.len() implies '\0' <= #[trigger] s[i] <= '\u{7f}' by {
        if digits.len() == s.len() {
            assert(is_digit(digits[i]));
        } else if i > 0 {
            assert(is_digit(digits[i - 1]));
            assert(digits[i - 1] == s[i]);
        }
    }
}

/// Reads an unsigned decimal numeral that denotes a number up to `limit`.
///
/// The text is an optional plus sign followed by one or more decimal digits;
/// leading zeros do not count against it. Any other text, and any numeral
/// that denotes more than `limit`, gives `None`.
pub fn read_numeral(text: &str, limit: u8) -> (number: Option<u8>)
    ensures
        number == (if is_numeral(text@) && numeral_value(text@) <= limit {
            Some(numeral_value(text@) as u8)
        } else {
            None
        }),
        number matches Some(v) ==> v == numeral_value(text@),
{
    broadcast use is_ascii_spec_bytes;

    if !text.is_ascii() {
        proof {
            if is_numeral(text@) {
                lemma_numeral_is_ascii(text@);
            }
        }
        return None;
    }
    let bytes = text.as_bytes();
    let n = bytes.len();
    let start: usize = if n > 0 && bytes[0] == 43 {
        1
    } else {
        0
    };
    let ghost digits = unsigned_part(text@);
    assert(n > 0 ==> bytes[0] == text@[0] as u8);
    assert(digits.len() == n - start);
    if start == n {
        return None;
    }
    let mut value: u16 = 0;
    let mut over = false;
    let mut i: usize = start;
    assert(digits.take(0).len() == 0);
    while i < n
        invariant
            start <= i <= n,
            n == text@.len(),
            ascii(text@),
            bytes@ == Seq::new(text@.len(), |k: int| text@.index(k) as u8),
            digits == unsigned_part(text@),
            digits.len() == n - start,
            forall|j: int| 0 <= j < digits.len() ==> digits[j] == text@[start + j],
            all_digits(digits.take(i - start)),
            !over ==> value == decimal_value(digits.take(i - start)) && value <= limit,
            over ==> decimal_value(digits.take(i - start)) > limit,
        decreases n - i,
    {
        let b = bytes[i];
        let ghost k = i - start;
        assert('\0' <= text@[i as int] <= '\u{7f}');
        assert(digits[k] == text@[i as int]);
        if b < 48 || b > 57 {
            assert(!is_digit(digits[k]));
            return None;
        }
        proof {
            lemma_decimal_value_step(digits, k);
            assert forall|j: int| 0 <= j < digits.take(k + 1).len() implies is_digit(
                #[trigger] digits.take(k + 1)[j],
            ) by {
                if j < k {
                    assert(digits.take(k)[j] == digits[j]);
                }
            }
            lemma_decimal_value_grows(digits.take(k));
        }
        if !over {
            let next: u16 = value * 10 + (b - 48) as u16;
            if next > limit as u16 {
                over = true;
            } else {
                value = next;
            }
        }
        i = i + 1;
    }
    assert(digits.take(n - start) =~= digits);
    if over {
        None
    } else {
        Some(value as u8)
    }
}

/// Compares two texts character by character.
pub fn same_text(a: &str, b: &str) -> (same: bool)
    ensures
        same == (a@ == b@),
{
    let x = a.as_bytes();
    let y = b.as_bytes();
    proof {
        vstd::utf8::encode_utf8_decode_utf8(a@);
        vstd::utf8::encode_utf8_decode_utf8(b@);
    }
    if x.len() != y.len() {
        return false;
    }
    let mut i: usize = 0;
    while i < x.len()
        invariant
            i <= x.len(),
            x.len() == y.len(),
            x@ == a.spec_bytes(),
            y@ == b.spec_bytes(),
            forall|j: int| 0 <= j < i ==> x@[j] == y@[j],
        decreases x.len() - i,
    {
        if x[i] != y[i] {
            return false;
        }
        i = i + 1;
    }
    assert(x@ =~= y@);
    true
}

} // verus!
