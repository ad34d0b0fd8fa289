//! The JSON text of the response body: decimal numbers, string literals and
//! the two-field record that carries them.

use vstd::prelude::*;

verus! {

/// The ten decimal digits in order.
pub open spec fn digits() -> Seq<char> {
    "0123456789"@
}

/// The character of the decimal digit `d`, for `d` below ten.
pub open spec fn digit_char(d: nat) -> char {
    digits()[d as int]
}

/// The decimal notation of `n`: its digits, most significant first, with no
/// leading zero (zero itself is the single digit `0`).
pub open spec fn decimal(n: nat) -> Seq<char>
    decreases n,
{
    if n < 10 {
        seq![digit_char(n)]
    } else {
        decimal(n / 10).push(digit_char(n % 10))
    }
}

/// Holds of the ten decimal digits.
pub open spec fn is_digit(c: char) -> bool {
    '0' <= c <= '9'
}

/// A decimal notation is not empty and holds digits only; from ten on it has
/// two characters or more.
pub proof fn lemma_decimal_is_digits(n: nat)
    ensures
        decimal(n).len() >= 1,
        n >= 10 ==> decimal(n).len() >= 2,
        forall|i: int| 0 <= i < decimal(n).len() ==> is_digit(#[trigger] decimal(n)[i]),
    decreases n,
{
    reveal_strlit("0123456789");
    if n >= 10 {
        lemma_decimal_is_digits(n / 10);
    }
}

/// Two numbers with the same decimal notation are the same number.
pub proof fn lemma_decimal_injective(a: nat, b: nat)
    requires
        decimal(a) == decimal(b),
    ensures
        a == b,
    decreases a,
{
    reveal_strlit("0123456789");
    lemma_decimal_is_digits(a);
    lemma_decimal_is_digits(b);
    if a >= 10 && b >= 10 {
        assert(decimal(a).drop_last() =~= decimal(a / 10));
        assert(decimal(b).drop_last() =~= decimal(b / 10));
        lemma_decimal_injective(a / 10, b / 10);
        assert(digit_char(a % 10) == decimal(a).last());
        assert(digit_char(b % 10) == decimal(b).last());
        assert(a % 10 == b % 10);
    } else if a < 10 && b < 10 {
        assert(digit_char(a) == decimal(a)[0]);
        assert(digit_char(b) == decimal(b)[0]);
    }
}

/// The one-character text of a decimal digit.
fn digit_text(d: u64) -> (text: &'static str)
    requires
        d < 10,
    ensures
        text@ == seq![digit_char(d as nat)],
{
    proof {
        reveal_strlit("0123456789");
    }
    let at = d as usize;
    let text = "0123456789".substring_ascii(at, at + 1);
    assert(text@ =~= seq![digit_char(d as nat)]);
    text
}

/// Writes `n` in decimal notation, as a JSON number is written.
pub fn decimal_text(n: u64) -> (text: String)
    ensures
        text@ == decimal(n as nat),
    decreases n,
{
    if n < 10 {
        String::from_str(digit_text(n))
    } else {
        let mut text = decimal_text(n / 10);
        text.append(digit_text(n % 10));
        assert(text@ =~= decimal(n as nat));
        text
    }
}

/// The error value of `serde_json`, carried from the encoder to the place
/// where it is turned into an [`EncodeError`]; nothing is read from it here.
#[verifier::external_type_specification]
#[verifier::external_body]
pub struct ExJsonError(serde_json::Error);

/// Why a value could not be written as JSON.
#[derive(Clone, Debug)]
pub struct EncodeError {
    /// The encoder's own description of the failure.
    pub detail: String,
}

impl View for EncodeError {
    type V = Seq<char>;

    open spec fn view(&self) -> Seq<char> {
        self.detail@
    }
}

/// Holds of a text that a JSON string literal carries as it stands: no
/// character in it is a control character (below U+0020), a quotation mark or
/// a backslash.
pub open spec fn is_plain(s: Seq<char>) -> bool {
    forall|i: int| 0 <= i < s.len() ==> is_plain_char(#[trigger] s[i])
}

/// Holds of a character that a JSON string literal carries unescaped.
pub open spec fn is_plain_char(c: char) -> bool {
    c >= ' ' && c != '"' && c != '\\'
}

/// `s` between two quotation marks.
pub open spec fn quoted(s: Seq<char>) -> Seq<char> {
    seq!['"'] + s + seq!['"']
}

/// What `serde_json::to_string` returns for the string `s`: the text of the
/// JSON string literal, or `None` where the call returns an error. It is the
/// encoder's word on the texts that need escaping, which [`string_literal`]
/// leaves to it.
pub uninterp spec fn escaped_literal(s: Seq<char>) -> Option<Seq<char>>;

/// The JSON string literal for `s`. A plain text stands between quotation
/// marks as it is; for any other text the literal is the one the encoder
/// gives, and there is none where the encoder fails.
pub open spec fn string_literal(s: Seq<char>) -> Option<Seq<char>> {
    if is_plain(s) {
        Some(quoted(s))
    } else {
        escaped_literal(s)
    }
}

/// Calls `serde_json::to_string` on a string slice.
///
/// Trusted: the result is `Ok` with the text of [`string_literal`], or an
/// error where that is `None`. For a plain text this claims that the call
/// succeeds and returns the text unchanged between two quotation marks: the
/// encoder writes a `"`, then every run of bytes that its escape table maps to
/// zero as it is, then a `"`, into a `Vec<u8>` whose writes do not fail. The
/// table escapes only the bytes below 0x20, 0x22 and 0x5C. For any other text
/// the claim is only that the outcome is a function of the text.
#[verifier::external_body]
fn serde_to_string(s: &str) -> (r: Result<String, serde_json::Error>)
    ensures
        match r {
            Ok(text) => Some(text@) == if is_plain(s@) {
                Some(quoted(s@))
            } else {
                escaped_literal(s@)
            },
            Err(_) => !is_plain(s@) && escaped_literal(s@) is None,
        },
{
    serde_json::to_string(s)
}

/// Formats a `serde_json::Error` through its `Display` impl.
///
/// Trusted: nothing is claimed of the text.
#[verifier::external_body]
fn describe(e: &serde_json::Error) -> (detail: String) {
    format!("{}", e)
}

/// Writes `s` as a JSON string literal.
pub fn string_literal_text(s: &str) -> (r: Result<String, EncodeError>)
    ensures
        match string_literal(s@) {
            Some(literal) => r matches Ok(text) && text@ == literal,
            None => r is Err,
        },
{
    match serde_to_string(s) {
        Ok(text) => Ok(text),
        Err(e) => Err(EncodeError { detail: describe(&e) }),
    }
}

/// The text before the number of the `code` field.
pub open spec fn record_head() -> Seq<char> {
    "{\"code\":"@
}

/// The text between the number of the `code` field and the literal of the
/// `err` field.
pub open spec fn record_middle() -> Seq<char> {
    ",\"err\":"@
}

/// The text that closes the record.
pub open spec fn record_tail() -> Seq<char> {
    "}"@
}

/// The JSON object with the field `code`, the number `code`, and the field
/// `err`, whose value is written as `err_literal`, in this order and with no
/// white space.
pub open spec fn record(code: nat, err_literal: Seq<char>) -> Seq<char> {
    record_head() + decimal(code) + record_middle() + err_literal + record_tail()
}

/// A record tells its two parts: two records with the same text have the
/// same code and the same literal. So a reader can take the text apart again
/// in one way only.
pub proof fn lemma_record_injective(
    code_a: nat,
    literal_a: Seq<char>,
    code_b: nat,
    literal_b: Seq<char>,
)
    requires
        record(code_a, literal_a) == record(code_b, literal_b),
    ensures
        code_a == code_b,
        literal_a == literal_b,
{
    reveal_strlit("{\"code\":");
    reveal_strlit(",\"err\":");
    reveal_strlit("}");
    let text_a = record(code_a, literal_a);
    let text_b = record(code_b, literal_b);
    let digits_a = decimal(code_a);
    let digits_b = decimal(code_b);
    let head = record_head().len() as int;
    let middle = record_middle().len() as int;
    lemma_decimal_is_digits(code_a);
    lemma_decimal_is_digits(code_b);
    assert(text_a.len() == head + digits_a.len() + middle + literal_a.len() + 1);
    assert(text_b.len() == head + digits_b.len() + middle + literal_b.len() + 1);
    assert(forall|i: int| 0 <= i < digits_a.len() ==> text_a[head + i] == digits_a[i]);
    assert(forall|i: int| 0 <= i < digits_b.len() ==> text_b[head + i] == digits_b[i]);
    assert(text_a[head + digits_a.len()] == ',');
    assert(text_b[head + digits_b.len()] == ',');
    if digits_a.len() < digits_b.len() {
        assert(is_digit(digits_b[digits_a.len() as int]));
        assert(text_b[head + digits_a.len()] == digits_b[digits_a.len() as int]);
        assert(false);
    }
    if digits_b.len() < digits_a.len() {
        assert(is_digit(digits_a[digits_b.len() as int]));
        assert(text_a[head + digits_b.len()] == digits_a[digits_b.len() as int]);
        assert(false);
    }
    assert(digits_a =~= digits_b) by {
        assert forall|i: int| 0 <= i < digits_a.len() implies digits_a[i] == digits_b[i] by {
            assert(text_a[head + i] == digits_a[i]);
            assert(text_b[head + i] == digits_b[i]);
        }
    }
    lemma_decimal_injective(code_a, code_b);
    let start = head + digits_a.len() + middle;
    assert(literal_a =~= literal_b) by {
        assert forall|i: int| 0 <= i < literal_a.len() implies literal_a[i] == literal_b[i] by {
            assert(text_a[start + i] == literal_a[i]);
            assert(text_b[start + i] == literal_b[i]);
        }
    }
}

/// Writes the record of `code` and of `err_literal`, a string literal that has
/// been written already.
pub fn record_text(code: u64, err_literal: &str) -> (text: String)
    ensures
        text@ == record(code as nat, err_literal@),
{
    let mut text = String::from_str("{\"code\":");
    let number = decimal_text(code);
    text.append(number.as_str());
    text.append(",\"err\":");
    text.append(err_literal);
    text.append("}");
    text
}

} // verus!
