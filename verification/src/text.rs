//! Small text helpers shared by every module that words a message.
use vstd::prelude::*;

verus! {

/// Decimal digits of `n`, most significant first, without leading zeros.
pub open spec fn decimal_digits(n: nat) -> Seq<char>
    decreases n,
{
    if n < 10 {
        seq![digit_char(n)]
    } else {
        decimal_digits(n / 10).push(digit_char(n % 10))
    }
}

/// The character of one decimal digit.
pub open spec fn digit_char(d: nat) -> char {
    if d == 0 { '0' }
    else if d == 1 { '1' }
    else if d == 2 { '2' }
    else if d == 3 { '3' }
    else if d == 4 { '4' }
    else if d == 5 { '5' }
    else if d == 6 { '6' }
    else if d == 7 { '7' }
    else if d == 8 { '8' }
    else { '9' }
}

/// Decimal notation of a signed integer.
pub open spec fn signed_digits(n: int) -> Seq<char> {
    if n < 0 {
        seq!['-'] + decimal_digits((-n) as nat)
    } else {
        decimal_digits(n as nat)
    }
}

/// Whether two texts hold the same characters.
pub fn same_text(a: &str, b: &str) -> (same: bool)
    ensures
        same == (a@ == b@),
{
    a.to_owned() == b.to_owned()
}

/// Appends one decimal digit to `text`.
fn push_digit(text: &mut String, d: u64)
    requires
        d < 10,
    ensures
        final(text)@ == old(text)@.push(digit_char(d as nat)),
{
    proof {
        reveal_strlit("0");
        reveal_strlit("1");
        reveal_strlit("2");
        reveal_strlit("3");
        reveal_strlit("4");
        reveal_strlit("5");
        reveal_strlit("6");
        reveal_strlit("7");
        reveal_strlit("8");
        reveal_strlit("9");
    }
    let digit: &str = if d == 0 { "0" }
        else if d == 1 { "1" }
        else if d == 2 { "2" }
        else if d == 3 { "3" }
        else if d == 4 { "4" }
        else if d == 5 { "5" }
        else if d == 6 { "6" }
        else if d == 7 { "7" }
        else if d == 8 { "8" }
        else { "9" };
    assert(digit@ =~= seq![digit_char(d as nat)]);
    text.append(digit);
    assert(text@ =~= old(text)@.push(digit_char(d as nat)));
}

/// Decimal notation of `n`.
pub fn decimal(n: u64) -> (text: String)
    ensures
        text@ == decimal_digits(n as nat),
    decreases n,
{
    if n < 10 {
        let mut text = String::new();
        push_digit(&mut text, n);
        assert(text@ =~= seq![digit_char(n as nat)]);
        text
    } else {
        let mut text = decimal(n / 10);
        push_digit(&mut text, n % 10);
        text
    }
}

/// Decimal notation of a signed integer.
pub fn signed_decimal(n: i64) -> (text: String)
    ensures
        text@ == signed_digits(n as int),
{
    if n < 0 {
        proof {
            reveal_strlit("-");
        }
        let mut text = "-".to_owned();
        let magnitude: u64 = if n == i64::MIN { 0x8000_0000_0000_0000u64 } else { (-n) as u64 };
        text.append(decimal(magnitude).as_str());
        assert("-"@ =~= seq!['-']);
        text
    } else {
        decimal(n as u64)
    }
}

/// The value of a decimal digit, if the character is one.
pub open spec fn digit_value(c: char) -> Option<nat> {
    if '0' <= c <= '9' { Some((c as int - '0' as int) as nat) } else { None }
}

/// The number that a run of decimal digits denotes, if all are digits.
pub open spec fn digits_value(digits: Seq<char>) -> Option<nat>
    decreases digits.len(),
{
    if digits.len() == 0 {
        Some(0)
    } else {
        match (digits_value(digits.drop_last()), digit_value(digits.last())) {
            (Some(high), Some(low)) => Some(high * 10 + low),
            _ => None,
        }
    }
}

/// The 64-bit number that a text denotes: an optional plus sign, then at least
/// one decimal digit and nothing else.
pub open spec fn unsigned_value(text: Seq<char>) -> Option<u64> {
    let digits = if text.len() > 0 && text[0] == '+' { text.drop_first() } else { text };
    match digits_value(digits) {
        Some(n) => if digits.len() > 0 && n <= u64::MAX { Some(n as u64) } else { None },
        None => None,
    }
}

/// A run of digits that is cut short denotes no more than the whole.
proof fn lemma_digits_grow(digits: Seq<char>, n: int)
    requires
        0 <= n <= digits.len(),
        digits_value(digits) is Some,
    ensures
        digits_value(digits.take(n)) is Some,
        digits_value(digits.take(n))->0 <= digits_value(digits)->0,
    decreases digits.len() - n,
{
    if n == digits.len() {
        assert(digits.take(n) =~= digits);
    } else {
        lemma_digits_grow(digits, n + 1);
        assert(digits.take(n + 1).drop_last() =~= digits.take(n));
    }
}

/// Reads an unsigned decimal number.
pub fn parse_decimal(text: &str) -> (value: Option<u64>)
    ensures
        value == unsigned_value(text@),
{
    let count: usize = text.unicode_len();
    let start: usize = if count > 0 && text.get_char(0) == '+' { 1 } else { 0 };
    let ghost digits = if text@.len() > 0 && text@[0] == '+' { text@.drop_first() } else { text@ };
    assert(digits =~= text@.skip(start as int));
    if start == count {
        return None;
    }
    let mut value: u64 = 0;
    let mut i: usize = start;
    while i < count
        invariant
            start <= i <= count,
            count == text@.len(),
            digits == text@.skip(start as int),
            digits == if text@.len() > 0 && text@[0] == '+' { text@.drop_first() } else { text@ },
            digits_value(digits.take(i - start)) == Some(value as nat),
        decreases count - i,
    {
        let c = text.get_char(i);
        let ghost next = digits.take(i - start + 1);
        proof {
            assert(next.drop_last() =~= digits.take(i - start));
            assert(next.last() == c);
            if digits_value(digits) is Some {
                lemma_digits_grow(digits, i - start + 1);
            }
        }
        if c < '0' || c > '9' {
            return None;
        }
        let digit: u64 = (c as u32 - '0' as u32) as u64;
        match value.checked_mul(10) {
            None => {
                return None;
            },
            Some(tens) => match tens.checked_add(digit) {
                None => {
                    return None;
                },
                Some(sum) => {
                    value = sum;
                },
            },
        }
        i = i + 1;
    }
    assert(digits.take(i - start) =~= digits);
    Some(value)
}

/// Whether the character has the Unicode `White_Space` property.
pub open spec fn white_space(c: char) -> bool {
    let n = c as u32;
    ||| 0x09 <= n <= 0x0d
    ||| n == 0x20
    ||| n == 0x85
    ||| n == 0xa0
    ||| n == 0x1680
    ||| 0x2000 <= n <= 0x200a
    ||| n == 0x2028
    ||| n == 0x2029
    ||| n == 0x202f
    ||| n == 0x205f
    ||| n == 0x3000
}

/// Whether the text holds nothing but white space.
pub open spec fn blank(text: Seq<char>) -> bool {
    forall|i: int| 0 <= i < text.len() ==> white_space(#[trigger] text[i])
}

/// Whether the character has the Unicode `White_Space` property.
fn is_white_space(c: char) -> (yes: bool)
    ensures
        yes == white_space(c),
{
    let n: u32 = c as u32;
    (0x09 <= n && n <= 0x0d) || n == 0x20 || n == 0x85 || n == 0xa0 || n == 0x1680 || (0x2000 <= n && n <= 0x200a) || n
        == 0x2028 || n == 0x2029 || n == 0x202f || n == 0x205f || n == 0x3000
}

/// Whether the text holds nothing but white space.
pub fn is_blank(text: &str) -> (yes: bool)
    ensures
        yes == blank(text@),
{
    let count: usize = text.unicode_len();
    let mut i: usize = 0;
    while i < count
        invariant
            i <= count,
            count == text@.len(),
            forall|j: int| 0 <= j < i ==> white_space(#[trigger] text@[j]),
        decreases count - i,
    {
        if !is_white_space(text.get_char(i)) {
            return false;
        }
        i = i + 1;
    }
    true
}

/// The most characters of foreign text that a message quotes.
pub const MAX_QUOTED_CHARS: usize = 128;

/// Foreign text as a message quotes it: cut short, with a mark, where it is long.
pub open spec fn quoted(text: Seq<char>) -> Seq<char> {
    if text.len() <= MAX_QUOTED_CHARS { text } else { text.take(MAX_QUOTED_CHARS as int) + "..."@ }
}

/// Quotes foreign text, cutting it short where it is long.
pub fn quote(text: &str) -> (short: String)
    ensures
        short@ == quoted(text@),
{
    if text.unicode_len() <= MAX_QUOTED_CHARS {
        text.to_owned()
    } else {
        let short = text.substring_char(0, MAX_QUOTED_CHARS);
        assert(short@ =~= text@.take(MAX_QUOTED_CHARS as int));
        short.to_owned().concat("...")
    }
}

/// A quotation is short, however long the text.
pub proof fn a_quotation_is_short(text: Seq<char>)
    ensures
        quoted(text).len() <= MAX_QUOTED_CHARS + 3,
{
    reveal_strlit("...");
}

/// A quotation keeps a short text as it is, and of a long one its first 128
/// characters, followed by three dots.
pub proof fn a_quotation_begins_as_its_text(text: Seq<char>, at: int)
    requires
        0 <= at < text.len(),
    ensures
        text.len() <= 128 ==> quoted(text) == text,
        text.len() > 128 ==> quoted(text).len() == 131 && quoted(text).skip(128) == seq!['.', '.', '.'],
        at < 128 ==> quoted(text)[at] == text[at],
{
    reveal_strlit("...");
    if text.len() > 128 {
        assert(quoted(text).skip(128) =~= seq!['.', '.', '.']);
    }
}

/// A text is blank exactly where each of its parts is; a space, a tab and a line
/// break are blank, and no letter or digit of ASCII is.
pub proof fn a_text_is_blank_part_by_part(first: Seq<char>, second: Seq<char>, c: char)
    ensures
        blank(first + second) <==> blank(first) && blank(second),
        blank(Seq::empty()),
        blank(seq![c]) <==> white_space(c),
        white_space(' ') && white_space('\t') && white_space('\n') && white_space('\r'),
        'a' <= c <= 'z' || 'A' <= c <= 'Z' || '0' <= c <= '9' ==> !white_space(c),
{
    let all = first + second;
    if blank(all) {
        assert forall|i: int| 0 <= i < first.len() implies white_space(#[trigger] first[i]) by {
            assert(all[i] == first[i]);
        }
        assert forall|i: int| 0 <= i < second.len() implies white_space(#[trigger] second[i]) by {
            assert(all[first.len() + i] == second[i]);
        }
    }
    if blank(first) && blank(second) {
        assert forall|i: int| 0 <= i < all.len() implies white_space(#[trigger] all[i]) by {
            if i >= first.len() {
                assert(all[i] == second[i - first.len()]);
            } else {
                assert(all[i] == first[i]);
            }
        }
    }
    assert(seq![c][0] == c);
}

/// A number is written with decimal digits only, without a leading zero, and
/// reads back as itself.
pub proof fn a_written_number_reads_back(n: nat)
    ensures
        digits_value(decimal_digits(n)) == Some(n),
        decimal_digits(n).len() > 0,
        forall|i: int| 0 <= i < decimal_digits(n).len() ==> '0' <= #[trigger] decimal_digits(n)[i] <= '9',
        n > 0 ==> decimal_digits(n)[0] != '0',
        n <= u64::MAX ==> unsigned_value(decimal_digits(n)) == Some(n as u64),
        n <= u64::MAX ==> unsigned_value(seq!['+'] + decimal_digits(n)) == Some(n as u64),
    decreases n,
{
    let digits = decimal_digits(n);
    if n < 10 {
        assert(digits.drop_last() =~= Seq::empty());
        assert(digits_value(Seq::<char>::empty()) == Some(0nat));
    } else {
        a_written_number_reads_back(n / 10);
        assert(digits.drop_last() =~= decimal_digits(n / 10));
        assert(digits[0] == decimal_digits(n / 10)[0]);
    }
    assert((seq!['+'] + digits).drop_first() =~= digits);
    assert('0' <= digits[0] <= '9');
}

/// Different numbers are written differently, and a negative one is written as
/// the positive one behind a minus sign.
pub proof fn different_numbers_are_written_differently(a: int, b: int)
    ensures
        signed_digits(a) == signed_digits(b) <==> a == b,
        a > 0 ==> signed_digits(-a) == seq!['-'] + signed_digits(a),
        a >= 0 ==> digits_value(signed_digits(a)) == Some(a as nat),
{
    let ma = if a < 0 { (-a) as nat } else { a as nat };
    let mb = if b < 0 { (-b) as nat } else { b as nat };
    a_written_number_reads_back(ma);
    a_written_number_reads_back(mb);
    if a < 0 {
        assert(signed_digits(a)[0] == '-');
        assert(signed_digits(a).skip(1) =~= decimal_digits(ma));
    }
    if b < 0 {
        assert(signed_digits(b)[0] == '-');
        assert(signed_digits(b).skip(1) =~= decimal_digits(mb));
    }
    assert('0' <= decimal_digits(ma)[0] <= '9');
    assert('0' <= decimal_digits(mb)[0] <= '9');
}

/// A run of digits with another character in it denotes nothing.
proof fn lemma_a_stray_character_spoils_the_number(digits: Seq<char>, at: int)
    requires
        0 <= at < digits.len(),
        !('0' <= digits[at] <= '9'),
    ensures
        digits_value(digits) is None,
    decreases digits.len(),
{
    if at < digits.len() - 1 {
        assert(digits.drop_last()[at] == digits[at]);
        lemma_a_stray_character_spoils_the_number(digits.drop_last(), at);
    }
}

/// A text denotes a number only if it consists of decimal digits, after at most
/// one plus sign; one more digit counts the digits before it tenfold.
pub proof fn only_digits_denote_a_number(text: Seq<char>, at: int, digit: char)
    ensures
        0 <= at < text.len() && !('0' <= text[at] <= '9') && !(at == 0 && text[0] == '+') ==> unsigned_value(text) is None,
        text.len() == 0 ==> unsigned_value(text) is None,
        text == seq!['+'] ==> unsigned_value(text) is None,
        '0' <= digit <= '9' ==> (digits_value(text) matches Some(n) ==> digits_value(text.push(digit)) == Some(
            (n * 10 + (digit as int - '0' as int)) as nat,
        )),
        digits_value(text) matches Some(n) ==> (n > u64::MAX ==> unsigned_value(text) is None),
{
    assert(text.push(digit).drop_last() =~= text);
    if 0 <= at < text.len() && !('0' <= text[at] <= '9') && !(at == 0 && text[0] == '+') {
        if text[0] == '+' {
            assert(text.drop_first()[at - 1] == text[at]);
            lemma_a_stray_character_spoils_the_number(text.drop_first(), at - 1);
        } else {
            lemma_a_stray_character_spoils_the_number(text, at);
        }
    }
    if digits_value(text) is Some && text.len() > 0 && text[0] == '+' {
        lemma_a_stray_character_spoils_the_number(text, 0);
    }
}

} // verus!
