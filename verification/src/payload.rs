//! The request body sent to the inference endpoint.
//!
//! The body is a JSON object with two members: the prompt, written as a JSON
//! string, and the cap on generated tokens. Whatever the prompt holds, it stays
//! inside its string: quotes, backslashes and control characters are escaped.

use vstd::prelude::*;
use vstd::string::{StrSliceExecFns, StringExecFns};

verus! {

/// What precedes the prompt in a request body; it ends with the quote that
/// opens the prompt's string.
pub open spec fn payload_head() -> Seq<char> {
    "\n    {\n        \"prompt\": \""@
}

/// What follows the prompt in a request body: the quote that closes the
/// prompt's string, and the cap on generated tokens.
pub open spec fn payload_tail() -> Seq<char> {
    "\" , \"n_predict\": 128 \n    }"@
}

/// The field that caps the number of generated tokens.
pub open spec fn generation_cap() -> Seq<char> {
    "\"n_predict\": 128"@
}

/// The hexadecimal digit for `value`, in lower case.
pub open spec fn hex_digit(value: int) -> char
    recommends
        0 <= value < 16,
{
    if value < 10 {
        ('0' as int + value) as char
    } else {
        ('a' as int + value - 10) as char
    }
}

/// Whether `c` can stand in a JSON string as it is: it is no quote, no
/// backslash and no control character.
pub open spec fn is_plain(c: char) -> bool {
    c != '"' && c != '\\' && c as u32 >= 32
}

/// How one character of the prompt is written in the request body: a quote
/// and a backslash behind a backslash, a control character as `\u00` and its
/// two hexadecimal digits, any other character as it is.
pub open spec fn escaped_char(c: char) -> Seq<char> {
    if c == '"' {
        seq!['\\', '"']
    } else if c == '\\' {
        seq!['\\', '\\']
    } else if (c as u32) < 32 {
        seq!['\\', 'u', '0', '0', hex_digit(c as int / 16), hex_digit(c as int % 16)]
    } else {
        seq![c]
    }
}

/// How a text is written in the request body: each character escaped, in
/// order.
pub open spec fn escaped(text: Seq<char>) -> Seq<char>
    decreases text.len(),
{
    if text.len() == 0 {
        Seq::empty()
    } else {
        escaped_char(text.first()) + escaped(text.drop_first())
    }
}

/// The request body for `prompt`: the escaped prompt between the two fixed
/// parts of the template.
pub open spec fn payload_of(prompt: Seq<char>) -> Seq<char> {
    payload_head() + escaped(prompt) + payload_tail()
}

/// `part` stands in `text` at offset `at`.
pub open spec fn occurs_at(text: Seq<char>, part: Seq<char>, at: int) -> bool {
    &&& 0 <= at
    &&& at + part.len() <= text.len()
    &&& text.subrange(at, at + part.len()) == part
}

/// `part` stands somewhere in `text`.
pub open spec fn contains(text: Seq<char>, part: Seq<char>) -> bool {
    exists|at: int| occurs_at(text, part, at)
}

/// The value of a hexadecimal digit, in either case.
pub open spec fn hex_value(c: char) -> Option<int> {
    if '0' as int <= c as int <= '9' as int {
        Some(c as int - '0' as int)
    } else if 'a' as int <= c as int <= 'f' as int {
        Some(c as int - 'a' as int + 10)
    } else if 'A' as int <= c as int <= 'F' as int {
        Some(c as int - 'A' as int + 10)
    } else {
        None
    }
}

/// The character that a backslash and `c` stand for in a JSON string, for
/// the escapes of two characters.
pub open spec fn short_escape(c: char) -> Option<char> {
    if c == '"' || c == '\\' || c == '/' {
        Some(c)
    } else if c == 'b' {
        Some(8u8 as char)
    } else if c == 'f' {
        Some(12u8 as char)
    } else if c == 'n' {
        Some(10u8 as char)
    } else if c == 'r' {
        Some(13u8 as char)
    } else if c == 't' {
        Some(9u8 as char)
    } else {
        None
    }
}

/// The character that four hexadecimal digits behind `\u` stand for. A half
/// of a surrogate pair stands for none.
pub open spec fn long_escape(digits: Seq<char>) -> Option<char>
    recommends
        digits.len() == 4,
{
    match (hex_value(digits[0]), hex_value(digits[1]), hex_value(digits[2]), hex_value(digits[3])) {
        (Some(a), Some(b), Some(c), Some(d)) => {
            let code = ((a * 16 + b) * 16 + c) * 16 + d;
            if 0xD800 <= code <= 0xDFFF {
                None
            } else {
                Some(code as char)
            }
        },
        _ => None,
    }
}

/// `c` in front of `rest`, where there is a rest.
pub open spec fn preceded(c: char, rest: Option<Seq<char>>) -> Option<Seq<char>> {
    match rest {
        Some(text) => Some(seq![c] + text),
        None => None,
    }
}

/// The text that `body` stands for between the quotes of a JSON string.
///
/// There is none where `body` holds a bare quote or control character, or a
/// backslash that begins no escape of a character: such a body is not the
/// content of one string.
pub open spec fn string_value(body: Seq<char>) -> Option<Seq<char>>
    decreases body.len(),
{
    if body.len() == 0 {
        Some(Seq::empty())
    } else if body[0] == '"' || (body[0] as u32) < 32 {
        None
    } else if body[0] != '\\' {
        preceded(body[0], string_value(body.skip(1)))
    } else if body.len() >= 2 && short_escape(body[1]) is Some {
        preceded(short_escape(body[1])->0, string_value(body.skip(2)))
    } else if body.len() >= 6 && body[1] == 'u' && long_escape(body.subrange(2, 6)) is Some {
        preceded(long_escape(body.subrange(2, 6))->0, string_value(body.skip(6)))
    } else {
        None
    }
}

/// Escaping a text that ends with `c` is escaping the text, then `c`.
pub proof fn lemma_escaped_push(text: Seq<char>, c: char)
    ensures
        escaped(text.push(c)) == escaped(text) + escaped_char(c),
    decreases text.len(),
{
    let longer = text.push(c);
    if text.len() == 0 {
        assert(longer.drop_first() =~= Seq::<char>::empty());
        assert(escaped(longer.drop_first()) =~= Seq::<char>::empty());
        assert(escaped(longer) =~= escaped_char(c));
        assert(escaped(text) + escaped_char(c) =~= escaped_char(c));
    } else {
        assert(longer.first() == text.first());
        assert(longer.drop_first() =~= text.drop_first().push(c));
        lemma_escaped_push(text.drop_first(), c);
        assert(escaped(longer) =~= escaped(text) + escaped_char(c));
    }
}

/// A text with nothing to escape is written as it is.
pub proof fn lemma_escaped_plain(text: Seq<char>)
    requires
        forall|i: int| 0 <= i < text.len() ==> is_plain(#[trigger] text[i]),
    ensures
        escaped(text) == text,
    decreases text.len(),
{
    if text.len() > 0 {
        assert(is_plain(text[0]));
        assert forall|i: int| 0 <= i < text.drop_first().len() implies is_plain(
            #[trigger] text.drop_first()[i],
        ) by {
            assert(text.drop_first()[i] == text[i + 1]);
        }
        lemma_escaped_plain(text.drop_first());
        assert(escaped(text) =~= text);
    }
}

/// The two digits of a control character's escape give its code back.
proof fn lemma_hex_digits(value: int)
    requires
        0 <= value < 16,
    ensures
        hex_value(hex_digit(value)) == Some(value),
{
}

/// What one escaped character stands for is the character, whatever follows.
proof fn lemma_escaped_char_reads_back(c: char, rest: Seq<char>)
    ensures
        string_value(escaped_char(c) + rest) == preceded(c, string_value(rest)),
{
    let body = escaped_char(c) + rest;
    if c == '"' || c == '\\' {
        assert(body[0] == '\\' && body[1] == c);
        assert(body.skip(2) =~= rest);
    } else if (c as u32) < 32 {
        let high = c as int / 16;
        let low = c as int % 16;
        lemma_hex_digits(high);
        lemma_hex_digits(low);
        assert(body[0] == '\\' && body[1] == 'u');
        assert(short_escape('u') is None);
        let digits = body.subrange(2, 6);
        assert(digits[0] == '0' && digits[1] == '0');
        assert(digits[2] == hex_digit(high) && digits[3] == hex_digit(low));
        assert(hex_value('0') == Some(0int));
        assert(long_escape(digits) == Some(c));
        assert(body.skip(6) =~= rest);
    } else {
        assert(body[0] == c);
        assert(body.skip(1) =~= rest);
    }
}

/// Reading an escaped text as the content of a JSON string gives the text
/// back, character for character: no character of the text ends the string or
/// begins anything but its own escape.
pub proof fn lemma_escaped_reads_back(text: Seq<char>)
    ensures
        string_value(escaped(text)) == Some(text),
    decreases text.len(),
{
    if text.len() > 0 {
        lemma_escaped_reads_back(text.drop_first());
        lemma_escaped_char_reads_back(text.first(), escaped(text.drop_first()));
        assert(seq![text.first()] + text.drop_first() =~= text);
    }
}

/// Every request body holds the escaped prompt right after the head of the
/// template, and the generation cap four characters after it. A prompt with
/// nothing to escape stands in the body as it is.
pub proof fn lemma_payload_layout(prompt: Seq<char>)
    ensures
        payload_head().len() == 26,
        payload_tail().len() == 27,
        payload_head().last() == '"',
        payload_tail().first() == '"',
        payload_of(prompt).len() == escaped(prompt).len() + 53,
        occurs_at(payload_of(prompt), payload_head(), 0),
        occurs_at(payload_of(prompt), escaped(prompt), 26),
        occurs_at(payload_of(prompt), payload_tail(), 26 + escaped(prompt).len() as int),
        occurs_at(payload_of(prompt), generation_cap(), 30 + escaped(prompt).len() as int),
        contains(payload_of(prompt), generation_cap()),
        (forall|i: int| 0 <= i < prompt.len() ==> is_plain(#[trigger] prompt[i])) ==> {
            &&& payload_of(prompt) == payload_head() + prompt + payload_tail()
            &&& contains(payload_of(prompt), prompt)
        },
{
    reveal_strlit("\n    {\n        \"prompt\": \"");
    reveal_strlit("\" , \"n_predict\": 128 \n    }");
    reveal_strlit("\"n_predict\": 128");
    let text = payload_of(prompt);
    let body = escaped(prompt);
    let n = body.len() as int;
    assert(text.subrange(0, 26) =~= payload_head());
    assert(text.subrange(26, 26 + n) =~= body);
    assert(text.subrange(26 + n, 53 + n) =~= payload_tail());
    assert(text.subrange(30 + n, 46 + n) =~= generation_cap());
    assert(occurs_at(text, body, 26));
    assert(occurs_at(text, generation_cap(), 30 + n));
    if forall|i: int| 0 <= i < prompt.len() ==> is_plain(#[trigger] prompt[i]) {
        lemma_escaped_plain(prompt);
        assert(occurs_at(text, prompt, 26));
    }
}

/// The prompt's string in a request body stands for the prompt: what lies
/// between the quote that ends the head and the quote that begins the tail
/// reads back as the prompt, whatever the prompt holds.
pub proof fn lemma_payload_reads_back(prompt: Seq<char>)
    ensures
        string_value(
            payload_of(prompt).subrange(
                payload_head().len() as int,
                payload_of(prompt).len() - payload_tail().len(),
            ),
        ) == Some(prompt),
{
    lemma_payload_layout(prompt);
    lemma_escaped_reads_back(prompt);
}

/// Two prompts with the same request body are the same prompt.
pub proof fn lemma_payload_injective(first: Seq<char>, second: Seq<char>)
    requires
        payload_of(first) == payload_of(second),
    ensures
        first == second,
{
    lemma_payload_reads_back(first);
    lemma_payload_reads_back(second);
}

/// Appends to `out` what the character of `text` at `index` is written as.
fn push_escaped(out: &mut String, text: &str, index: usize)
    requires
        index < text@.len(),
        index < usize::MAX,
    ensures
        final(out)@ == old(out)@ + escaped_char(text@[index as int]),
{
    let c = text.get_char(index);
    if c == '"' {
        proof {
            reveal_strlit("\\\"");
        }
        out.append("\\\"");
        assert(out@ =~= old(out)@ + escaped_char(c));
    } else if c == '\\' {
        proof {
            reveal_strlit("\\\\");
        }
        out.append("\\\\");
        assert(out@ =~= old(out)@ + escaped_char(c));
    } else if (c as u32) < 32 {
        let code: usize = c as usize;
        let digits = "0123456789abcdef";
        proof {
            reveal_strlit("\\u00");
            reveal_strlit("0123456789abcdef");
        }
        out.append("\\u00");
        out.append(digits.substring_char(code / 16, code / 16 + 1));
        out.append(digits.substring_char(code % 16, code % 16 + 1));
        assert(digits@.subrange((code / 16) as int, code / 16 + 1) =~= seq![hex_digit(c as int / 16)]);
        assert(digits@.subrange((code % 16) as int, code % 16 + 1) =~= seq![hex_digit(c as int % 16)]);
        assert(out@ =~= old(out)@ + escaped_char(c));
    } else {
        out.append(text.substring_char(index, index + 1));
        assert(out@ =~= old(out)@ + escaped_char(c));
    }
}

/// Builds the request body for `prompt`.
///
/// The prompt is written as a JSON string: quotes, backslashes and control
/// characters are escaped, so that no prompt can end its own string or add a
/// member to the body. A prompt without such characters is embedded as it is.
pub fn get_llama_payload(prompt: String) -> (payload: String)
    ensures
        payload@ == payload_of(prompt@),
{
    let text = prompt.as_str();
    let length = text.unicode_len();
    let mut payload = String::from_str("\n    {\n        \"prompt\": \"");
    let mut index: usize = 0;
    assert(text@.take(0) =~= Seq::<char>::empty());
    assert(payload@ =~= payload_head() + escaped(text@.take(0)));
    while index < length
        invariant
            length == text@.len(),
            index <= length,
            text@ == prompt@,
            payload@ == payload_head() + escaped(text@.take(index as int)),
        decreases length - index,
    {
        push_escaped(&mut payload, text, index);
        proof {
            lemma_escaped_push(text@.take(index as int), text@[index as int]);
            assert(text@.take(index as int).push(text@[index as int]) =~= text@.take(index + 1));
            assert(payload@ =~= payload_head() + escaped(text@.take(index + 1)));
        }
        index += 1;
    }
    assert(text@.take(length as int) =~= text@);
    payload.append("\" , \"n_predict\": 128 \n    }");
    payload
}

} // verus!
