//! Reading reply datagrams: lossy UTF-8 decoding, whitespace trimming, the
//! acknowledgement token and the battery reading.
use vstd::prelude::*;
use vstd::utf8::{decode_utf8, valid_utf8};
use crate::command::{is_digit, decimal, digit_char, lemma_decimal_digits_only};
use crate::error::{BatteryFault, ProtocolFault, TelloError, is_protocol_error};

verus! {

/// What `String::from_utf8_lossy` makes of a byte sequence: its UTF-8
/// decoding, each invalid sequence replaced by U+FFFD.
pub uninterp spec fn lossy_utf8(bytes: Seq<u8>) -> Seq<char>;

/// Relies on `String::from_utf8_lossy`: the result depends on the bytes
/// alone, and valid UTF-8 is decoded as it stands.
#[verifier::external_body]
fn decode_lossy(bytes: &[u8]) -> (r: String)
    ensures
        r@ == lossy_utf8(bytes@),
        valid_utf8(bytes@) ==> r@ == decode_utf8(bytes@),
{
    String::from_utf8_lossy(bytes).into_owned()
}

/// Unicode's `White_Space` property.
pub open spec fn white_space(c: char) -> bool {
    ||| ('\u{9}' <= c && c <= '\u{d}')
    ||| c == ' '
    ||| c == '\u{85}'
    ||| c == '\u{a0}'
    ||| c == '\u{1680}'
    ||| ('\u{2000}' <= c && c <= '\u{200a}')
    ||| c == '\u{2028}'
    ||| c == '\u{2029}'
    ||| c == '\u{202f}'
    ||| c == '\u{205f}'
    ||| c == '\u{3000}'
}

/// `s` without its leading whitespace.
pub open spec fn trim_start(s: Seq<char>) -> Seq<char>
    decreases s.len(),
{
    if s.len() > 0 && white_space(s[0]) {
        trim_start(s.drop_first())
    } else {
        s
    }
}

/// `s` without its trailing whitespace.
pub open spec fn trim_end(s: Seq<char>) -> Seq<char>
    decreases s.len(),
{
    if s.len() > 0 && white_space(s.last()) {
        trim_end(s.drop_last())
    } else {
        s
    }
}

/// `s` without whitespace at either end.
pub open spec fn trimmed(s: Seq<char>) -> Seq<char> {
    trim_end(trim_start(s))
}

/// Relies on `str::trim`: removes leading and trailing characters that
/// have the `White_Space` property.
#[verifier::external_body]
fn trim(s: &str) -> (r: &str)
    ensures
        r@ == trimmed(s@),
{
    s.trim()
}

/// The text of a reply datagram: its bytes decoded as UTF-8, invalid
/// sequences replaced, then trimmed of whitespace at both ends.
pub fn reply_text(datagram: &[u8]) -> (r: String)
    ensures
        r@ == trimmed(lossy_utf8(datagram@)),
{
    let decoded = decode_lossy(datagram);
    trim(decoded.as_str()).to_owned()
}

/// The characters of `s`, one by one.
fn chars_of(s: &str) -> (r: Vec<char>)
    ensures
        r@ == s@,
{
    let mut r: Vec<char> = Vec::new();
    for c in it: s.chars()
        invariant
            r@ == it.seq().subrange(0, it.index() as int),
            it.seq() == s@,
    {
        r.push(c);
    }
    r
}

/// The acknowledgement token `ok`, in any ASCII casing.
pub open spec fn is_acknowledgement(text: Seq<char>) -> bool {
    &&& text.len() == 2
    &&& (text[0] == 'o' || text[0] == 'O')
    &&& (text[1] == 'k' || text[1] == 'K')
}

/// Whether the reply, trimmed, is the acknowledgement token.
pub fn acknowledges(reply: &str) -> (r: bool)
    ensures
        r == is_acknowledgement(trimmed(reply@)),
{
    let t = chars_of(trim(reply));
    t.len() == 2 && (t[0] == 'o' || t[0] == 'O') && (t[1] == 'k' || t[1] == 'K')
}

/// Settles an action command on its reply: success exactly when the trimmed
/// reply is the acknowledgement token, else a protocol error that carries
/// the command and the reply.
pub fn check_acknowledgement(command: &str, reply: &str) -> (r: Result<(), TelloError>)
    ensures
        r is Ok <==> is_acknowledgement(trimmed(reply@)),
        r is Err ==> is_protocol_error(
            r->Err_0,
            command@,
            reply@,
            ProtocolFault::NotAcknowledged,
        ),
{
    if acknowledges(reply) {
        Ok(())
    } else {
        Err(TelloError::Protocol {
            command: command.to_owned(),
            reply: reply.to_owned(),
            fault: ProtocolFault::NotAcknowledged,
        })
    }
}

/// The value of a decimal digit character.
pub open spec fn digit_value(c: char) -> nat {
    ((c as u32) - ('0' as u32)) as nat
}

/// The number that a run of digits spells in base 10.
pub open spec fn digits_value(s: Seq<char>) -> nat
    decreases s.len(),
{
    if s.len() == 0 {
        0
    } else {
        digits_value(s.drop_last()) * 10 + digit_value(s.last())
    }
}

/// Every character of `s` is a decimal digit.
pub open spec fn all_digits(s: Seq<char>) -> bool {
    forall|i: int| 0 <= i < s.len() ==> is_digit(#[trigger] s[i])
}

/// `s` without one leading `+` sign.
pub open spec fn unsigned_digits(s: Seq<char>) -> Seq<char> {
    if s.len() > 0 && s[0] == '+' {
        s.drop_first()
    } else {
        s
    }
}

/// The battery percentage that a (trimmed) reply states, or why it states
/// none: an optional `+` and at least one digit, spelling at most 100.
pub open spec fn battery_reading(s: Seq<char>) -> Result<u8, BatteryFault> {
    if s.len() == 0 {
        Err(BatteryFault::Empty)
    } else if unsigned_digits(s).len() == 0 || !all_digits(unsigned_digits(s)) {
        Err(BatteryFault::InvalidDigit)
    } else if digits_value(unsigned_digits(s)) > 100 {
        Err(BatteryFault::AboveHundred)
    } else {
        Ok(digits_value(unsigned_digits(s)) as u8)
    }
}

/// Parses a battery reply, ignoring whitespace at either end.
pub fn parse_battery(reply: &str) -> (r: Result<u8, BatteryFault>)
    ensures
        r == battery_reading(trimmed(reply@)),
{
    let t = chars_of(trim(reply));
    let n = t.len();
    if n == 0 {
        return Err(BatteryFault::Empty);
    }
    let start: usize = if t[0] == '+' { 1 } else { 0 };
    let ghost body = unsigned_digits(t@);
    assert(body =~= t@.subrange(start as int, n as int));
    if start == n {
        return Err(BatteryFault::InvalidDigit);
    }
    // The value read so far, held at 101 once it passes 100.
    let mut value: u32 = 0;
    let mut i: usize = start;
    while i < n
        invariant
            start <= i <= n,
            n == t@.len(),
            body == t@.subrange(start as int, n as int),
            body == unsigned_digits(t@),
            t@.len() > 0,
            t@ == trimmed(reply@),
            all_digits(t@.subrange(start as int, i as int)),
            value as nat == if digits_value(t@.subrange(start as int, i as int)) > 100 {
                101
            } else {
                digits_value(t@.subrange(start as int, i as int))
            },
        decreases n - i,
    {
        let c = t[i];
        let ghost prefix = t@.subrange(start as int, i as int);
        let ghost next = t@.subrange(start as int, i + 1);
        assert(next.drop_last() =~= prefix);
        if !('0' <= c && c <= '9') {
            assert(!all_digits(body)) by {
                assert(body[i - start] == t@[i as int]);
            }
            return Err(BatteryFault::InvalidDigit);
        }
        let d: u32 = (c as u32) - ('0' as u32);
        assert(digits_value(next) == digits_value(prefix) * 10 + d);
        if value > 100 {
            assert(digits_value(next) > 100) by (nonlinear_arith)
                requires
                    digits_value(next) == digits_value(prefix) * 10 + d,
                    digits_value(prefix) > 100,
            ;
        } else {
            value = value * 10 + d;
            if value > 100 {
                value = 101;
            }
        }
        assert(all_digits(next)) by {
            assert forall|j: int| 0 <= j < next.len() implies is_digit(#[trigger] next[j]) by {
                if j < prefix.len() {
                    assert(next[j] == prefix[j]);
                }
            }
        }
        i = i + 1;
    }
    assert(t@.subrange(start as int, n as int) == body);
    if value > 100 {
        Err(BatteryFault::AboveHundred)
    } else {
        Ok(value as u8)
    }
}

/// Settles the battery query on its reply: the percentage, or a protocol
/// error that carries the command, the reply as received and the reason.
pub fn check_battery(command: &str, reply: &str) -> (r: Result<u8, TelloError>)
    ensures
        match battery_reading(trimmed(reply@)) {
            Ok(v) => r == Ok::<u8, TelloError>(v),
            Err(f) => r is Err && is_protocol_error(
                r->Err_0,
                command@,
                reply@,
                ProtocolFault::Battery(f),
            ),
        },
{
    match parse_battery(reply) {
        Ok(v) => Ok(v),
        Err(f) => Err(
            TelloError::Protocol {
                command: command.to_owned(),
                reply: reply.to_owned(),
                fault: ProtocolFault::Battery(f),
            },
        ),
    }
}

/// Every character of `s` is whitespace.
pub open spec fn all_white(s: Seq<char>) -> bool {
    forall|i: int| 0 <= i < s.len() ==> white_space(#[trigger] s[i])
}

proof fn lemma_trim_start_skips(lead: Seq<char>, rest: Seq<char>)
    requires
        all_white(lead),
        rest.len() > 0,
        !white_space(rest[0]),
    ensures
        trim_start(lead + rest) == rest,
    decreases lead.len(),
{
    if lead.len() == 0 {
        assert(lead + rest =~= rest);
    } else {
        assert((lead + rest).drop_first() =~= lead.drop_first() + rest);
        assert(white_space(lead[0]));
        lemma_trim_start_skips(lead.drop_first(), rest);
    }
}

proof fn lemma_trim_end_skips(body: Seq<char>, trail: Seq<char>)
    requires
        all_white(trail),
        body.len() > 0,
        !white_space(body.last()),
    ensures
        trim_end(body + trail) == body,
    decreases trail.len(),
{
    if trail.len() == 0 {
        assert(body + trail =~= body);
    } else {
        assert((body + trail).drop_last() =~= body + trail.drop_last());
        assert(white_space(trail.last()));
        lemma_trim_end_skips(body, trail.drop_last());
    }
}

/// Trimming removes exactly the whitespace around a word that neither
/// starts nor ends with whitespace.
pub proof fn lemma_trimmed_padding(lead: Seq<char>, word: Seq<char>, trail: Seq<char>)
    requires
        all_white(lead),
        all_white(trail),
        word.len() > 0,
        !white_space(word[0]),
        !white_space(word.last()),
    ensures
        trimmed(lead + word + trail) == word,
{
    assert((word + trail)[0] == word[0]);
    assert(lead + word + trail =~= lead + (word + trail));
    lemma_trim_start_skips(lead, word + trail);
    lemma_trim_end_skips(word, trail);
}

/// A reply that is the acknowledgement token in any casing, with any
/// whitespace around it, acknowledges its command.
pub proof fn lemma_padded_acknowledgement(lead: Seq<char>, token: Seq<char>, trail: Seq<char>)
    requires
        all_white(lead),
        all_white(trail),
        is_acknowledgement(token),
    ensures
        is_acknowledgement(trimmed(lead + token + trail)),
{
    lemma_trimmed_padding(lead, token, trail);
}

proof fn lemma_digit_value(d: nat)
    requires
        d < 10,
    ensures
        digit_value(digit_char(d)) == d,
        is_digit(digit_char(d)),
        !white_space(digit_char(d)),
        digit_char(d) != '+',
{
}

proof fn lemma_decimal_value(n: nat)
    ensures
        digits_value(decimal(n)) == n,
    decreases n,
{
    lemma_digit_value(n % 10);
    if n >= 10 {
        lemma_decimal_value(n / 10);
        assert(decimal(n).drop_last() =~= decimal(n / 10));
        assert(decimal(n).last() == digit_char(n % 10));
        assert(digits_value(decimal(n)) == n / 10 * 10 + n % 10);
    } else {
        assert(decimal(n).drop_last() =~= Seq::<char>::empty());
        assert(decimal(n).last() == digit_char(n));
        assert(digits_value(decimal(n)) == digits_value(Seq::<char>::empty()) * 10 + n);
    }
}

proof fn lemma_padded_decimal_reading(n: nat, lead: Seq<char>, trail: Seq<char>)
    requires
        all_white(lead),
        all_white(trail),
    ensures
        unsigned_digits(trimmed(lead + decimal(n) + trail)) == decimal(n),
        trimmed(lead + decimal(n) + trail).len() > 0,
        all_digits(decimal(n)),
        digits_value(decimal(n)) == n,
{
    let s = decimal(n);
    lemma_decimal_digits_only(n);
    lemma_decimal_value(n);
    lemma_digit_value(n % 10);
    if n >= 10 {
        lemma_decimal_digits_only(n / 10);
    }
    assert(is_digit(s[0]));
    assert(!white_space(s[0]));
    assert(s[0] != '+');
    lemma_trimmed_padding(lead, s, trail);
}

/// A battery reply that spells a percentage from 0 to 100 in decimal, with
/// any whitespace around it, reads as that percentage.
pub proof fn lemma_padded_percentage_reads(n: u8, lead: Seq<char>, trail: Seq<char>)
    requires
        n <= 100,
        all_white(lead),
        all_white(trail),
    ensures
        battery_reading(trimmed(lead + decimal(n as nat) + trail)) == Ok::<u8, BatteryFault>(n),
{
    lemma_padded_decimal_reading(n as nat, lead, trail);
}

/// A battery reply that spells a number above 100 is refused as such.
pub proof fn lemma_above_hundred_refused(n: nat, lead: Seq<char>, trail: Seq<char>)
    requires
        n > 100,
        all_white(lead),
        all_white(trail),
    ensures
        battery_reading(trimmed(lead + decimal(n) + trail)) == Err::<u8, BatteryFault>(
            BatteryFault::AboveHundred,
        ),
{
    lemma_padded_decimal_reading(n, lead, trail);
}

} // verus!
