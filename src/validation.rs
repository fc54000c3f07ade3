use vstd::prelude::*;
use unicode_width::UnicodeWidthChar;

verus! {

/// What a weak password is told.
pub const PASSWORD_TOO_WEAK: &'static str = "password must contain at least one uppercase letter";

/// What an empty message is told.
pub const MESSAGE_EMPTY: &'static str = "message cannot be empty";

/// What an overlong message is told.
pub const MESSAGE_TOO_LONG: &'static str = "message is too long (max 1000 characters)";

/// The most bytes a message may take once sanitized.
pub const MAX_MESSAGE_BYTES: usize = 1000;

/// Whether `c` has the Unicode Uppercase property.
pub uninterp spec fn uppercase_char(c: char) -> bool;

/// The displayed width of `c` in CJK contexts; none for control characters.
pub uninterp spec fn width_cjk_of(c: char) -> Option<usize>;

/// Whether `c` has the Unicode White_Space property, as `char::is_whitespace` reads it.
pub open spec fn is_white(c: char) -> bool {
    let v = c as u32;
    (0x9 <= v && v <= 0xD) || v == 0x20 || v == 0x85 || v == 0xA0 || v == 0x1680 || (0x2000 <= v
        && v <= 0x200A) || v == 0x2028 || v == 0x2029 || v == 0x202F || v == 0x205F || v == 0x3000
}

/// `s` without its leading and trailing whitespace.
pub open spec fn trim_of(s: Seq<char>) -> Seq<char>
    decreases s.len(),
{
    if s.len() > 0 && is_white(s[0]) {
        trim_of(s.drop_first())
    } else if s.len() > 0 && is_white(s.last()) {
        trim_of(s.drop_last())
    } else {
        s
    }
}

/// Relies on char::is_uppercase: whether `c` is an uppercase letter.
#[verifier::external_body]
fn is_uppercase(c: char) -> (r: bool)
    ensures
        r == uppercase_char(c),
{
    c.is_uppercase()
}

/// Relies on unicode_width::UnicodeWidthChar::width_cjk: the width of `c`.
#[verifier::external_body]
fn char_width_cjk(c: char) -> (r: Option<usize>)
    ensures
        r == width_cjk_of(c),
{
    UnicodeWidthChar::width_cjk(c)
}

/// Whether `c` is whitespace.
pub fn is_white_char(c: char) -> (r: bool)
    ensures
        r == is_white(c),
{
    let v = c as u32;
    (0x9 <= v && v <= 0xD) || v == 0x20 || v == 0x85 || v == 0xA0 || v == 0x1680 || (0x2000 <= v
        && v <= 0x200A) || v == 0x2028 || v == 0x2029 || v == 0x202F || v == 0x205F || v == 0x3000
}

/// `chars` without its leading and trailing whitespace.
pub fn trim_chars(chars: &Vec<char>) -> (r: Vec<char>)
    ensures
        r@ == trim_of(chars@),
{
    let n = chars.len();
    let mut i: usize = 0;
    assert(chars@.subrange(0, n as int) =~= chars@);
    while i < n && is_white_char(chars[i])
        invariant
            i <= n,
            n == chars@.len(),
            trim_of(chars@) == trim_of(chars@.subrange(i as int, n as int)),
        decreases n - i,
    {
        let ghost t = chars@.subrange(i as int, n as int);
        assert(t.drop_first() =~= chars@.subrange(i + 1, n as int));
        i = i + 1;
    }
    let mut j: usize = n;
    while j > i && is_white_char(chars[j - 1])
        invariant
            i <= j <= n,
            n == chars@.len(),
            i < j ==> !is_white(chars@[i as int]),
            trim_of(chars@) == trim_of(chars@.subrange(i as int, j as int)),
        decreases j - i,
    {
        let ghost t = chars@.subrange(i as int, j as int);
        assert(t.drop_last() =~= chars@.subrange(i as int, j - 1));
        j = j - 1;
    }
    let ghost t = chars@.subrange(i as int, j as int);
    assert(trim_of(t) == t);
    let mut out: Vec<char> = Vec::new();
    let mut k: usize = i;
    while k < j
        invariant
            i <= k <= j <= n,
            n == chars@.len(),
            out@ == chars@.subrange(i as int, k as int),
        decreases j - k,
    {
        out.push(chars[k]);
        k = k + 1;
        assert(out@ =~= chars@.subrange(i as int, k as int));
    }
    out
}

/// Relies on str::chars: the characters of `s`, in order.
#[verifier::external_body]
fn chars_of(s: &str) -> (r: Vec<char>)
    ensures
        r@ == s@,
{
    s.chars().collect()
}

/// Relies on String's FromIterator<char>: the string of `chars`, in order.
#[verifier::external_body]
fn string_of(chars: &Vec<char>) -> (r: String)
    ensures
        r@ == chars@,
{
    chars.iter().collect()
}

/// How many bytes UTF-8 spends on `c`.
pub open spec fn utf8_width(c: char) -> nat {
    let v = c as u32;
    if v < 0x80 {
        1
    } else if v < 0x800 {
        2
    } else if v < 0x10000 {
        3
    } else {
        4
    }
}

/// How many bytes UTF-8 spends on `s`.
pub open spec fn utf8_len(s: Seq<char>) -> nat
    decreases s.len(),
{
    if s.len() == 0 {
        0
    } else {
        utf8_len(s.drop_last()) + utf8_width(s.last())
    }
}

/// Relies on String::len: the length of `s` in bytes, which UTF-8 encodes.
#[verifier::external_body]
fn byte_len(s: &String) -> (r: usize)
    ensures
        r == utf8_len(s@),
{
    s.len()
}

/// The characters that a password must contain one of, besides an uppercase letter.
pub open spec fn is_special(c: char) -> bool {
    c == '!' || c == '@' || c == '#' || c == '$' || c == '&' || c == '*' || c == '_'
}

/// Why `password` is too weak, if it is.
pub open spec fn password_verdict(password: Seq<char>) -> Result<(), &'static str> {
    if !(exists|i: int| 0 <= i < password.len() && #[trigger] uppercase_char(password[i])) {
        Err(PASSWORD_TOO_WEAK)
    } else if !(exists|i: int| 0 <= i < password.len() && #[trigger] is_special(password[i])) {
        Err(PASSWORD_TOO_WEAK)
    } else {
        Ok(())
    }
}

/// A password needs an uppercase letter and one of `! @ # $ & * _`.
pub fn validate_password_strength(password: &str) -> (r: Result<(), &'static str>)
    ensures
        r == password_verdict(password@),
{
    let chars = chars_of(password);
    let mut upper = false;
    let mut special = false;
    let mut i: usize = 0;
    while i < chars.len()
        invariant
            i <= chars@.len(),
            chars@ == password@,
            upper == exists|j: int| 0 <= j < i && #[trigger] uppercase_char(chars@[j]),
            special == exists|j: int| 0 <= j < i && #[trigger] is_special(chars@[j]),
        decreases chars@.len() - i,
    {
        let c = chars[i];
        if is_uppercase(c) {
            upper = true;
        }
        if c == '!' || c == '@' || c == '#' || c == '$' || c == '&' || c == '*' || c == '_' {
            special = true;
        }
        i = i + 1;
        assert(upper == exists|j: int| 0 <= j < i && #[trigger] uppercase_char(chars@[j])) by {
            if uppercase_char(c) {
                assert(uppercase_char(chars@[i - 1]));
            }
        }
        assert(special == exists|j: int| 0 <= j < i && #[trigger] is_special(chars@[j])) by {
            if is_special(c) {
                assert(is_special(chars@[i - 1]));
            }
        }
    }
    if !upper {
        Err(PASSWORD_TOO_WEAK)
    } else if !special {
        Err(PASSWORD_TOO_WEAK)
    } else {
        Ok(())
    }
}

/// `c`, or a space where it takes no room on screen.
pub open spec fn blank(c: char) -> char {
    if width_cjk_of(c) == Some(0usize) {
        ' '
    } else {
        c
    }
}

/// What a message reads once sanitized: characters of no width become spaces,
/// and surrounding whitespace goes.
pub open spec fn sanitized(content: Seq<char>) -> Seq<char> {
    trim_of(content.map_values(|c: char| blank(c)))
}

/// Sanitizes a message's content.
pub fn sanitize(content: &str) -> (r: String)
    ensures
        r@ == sanitized(content@),
{
    let chars = chars_of(content);
    let mut out: Vec<char> = Vec::new();
    let mut i: usize = 0;
    while i < chars.len()
        invariant
            i <= chars@.len(),
            chars@ == content@,
            out@ == chars@.take(i as int).map_values(|c: char| blank(c)),
        decreases chars@.len() - i,
    {
        let c = chars[i];
        let b = match char_width_cjk(c) {
            Some(0) => ' ',
            _ => c,
        };
        out.push(b);
        i = i + 1;
        assert(out@ =~= chars@.take(i as int).map_values(|c: char| blank(c)));
    }
    assert(chars@.take(i as int) =~= chars@);
    let trimmed = trim_chars(&out);
    string_of(&trimmed)
}

/// Why a message's content is refused, if it is.
pub open spec fn message_verdict(content: Seq<char>) -> Result<(), &'static str> {
    if sanitized(content).len() == 0 {
        Err(MESSAGE_EMPTY)
    } else if utf8_len(sanitized(content)) > MAX_MESSAGE_BYTES {
        Err(MESSAGE_TOO_LONG)
    } else {
        Ok(())
    }
}

/// A message must say something once sanitized, in at most a thousand bytes.
pub fn sanitize_and_validate_message(content: &str) -> (r: Result<(), &'static str>)
    ensures
        r == message_verdict(content@),
{
    let s = sanitize(content);
    if s.as_str().is_empty() {
        Err(MESSAGE_EMPTY)
    } else if byte_len(&s) > MAX_MESSAGE_BYTES {
        Err(MESSAGE_TOO_LONG)
    } else {
        Ok(())
    }
}

} // verus!
