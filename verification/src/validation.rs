use vstd::prelude::*;

verus! {

/// Byte length of a string, as `str::len` reports it.
pub open spec fn byte_len(s: Seq<char>) -> nat {
    vstd::utf8::encode_utf8(s).len()
}

/// A character allowed in a username: ASCII letters, digits, '.', '-', '_'.
pub open spec fn username_char_ok(c: char) -> bool {
    ||| 'a' <= c && c <= 'z'
    ||| 'A' <= c && c <= 'Z'
    ||| '0' <= c && c <= '9'
    ||| c == '.'
    ||| c == '-'
    ||| c == '_'
}

/// A character allowed in a password: the username characters and the
/// special characters.
pub open spec fn password_char_ok(c: char) -> bool {
    username_char_ok(c) || special_char(c)
}

pub open spec fn lowercase_char(c: char) -> bool {
    'a' <= c && c <= 'z'
}

pub open spec fn uppercase_char(c: char) -> bool {
    'A' <= c && c <= 'Z'
}

pub open spec fn digit_char(c: char) -> bool {
    '0' <= c && c <= '9'
}

/// A special character that a password must contain at least one of:
/// '.', '_', '-', '*', '#', '%', '&', '$', '?', '!'.
pub open spec fn special_char(c: char) -> bool {
    ||| c == '.'
    ||| c == '_'
    ||| c == '-'
    ||| c == '*'
    ||| c == '#'
    ||| c == '%'
    ||| c == '&'
    ||| c == '$'
    ||| c == '?'
    ||| c == '!'
}

/// A valid username: 4 to 16 bytes, every character allowed.
pub open spec fn username_ok(s: Seq<char>) -> bool {
    &&& 4 <= byte_len(s) <= 16
    &&& forall|i: int| 0 <= i < s.len() ==> username_char_ok(#[trigger] s[i])
}

pub open spec fn all_password_chars(s: Seq<char>) -> bool {
    forall|i: int| 0 <= i < s.len() ==> password_char_ok(#[trigger] s[i])
}

pub open spec fn contains_lowercase(s: Seq<char>) -> bool {
    exists|i: int| 0 <= i < s.len() && lowercase_char(#[trigger] s[i])
}

pub open spec fn contains_uppercase(s: Seq<char>) -> bool {
    exists|i: int| 0 <= i < s.len() && uppercase_char(#[trigger] s[i])
}

pub open spec fn contains_digit(s: Seq<char>) -> bool {
    exists|i: int| 0 <= i < s.len() && digit_char(#[trigger] s[i])
}

pub open spec fn contains_special(s: Seq<char>) -> bool {
    exists|i: int| 0 <= i < s.len() && special_char(#[trigger] s[i])
}

/// A valid password: 8 to 30 bytes, every character allowed, and at least
/// one lowercase letter, one uppercase letter, one digit and one special
/// character.
pub open spec fn password_ok(s: Seq<char>) -> bool {
    &&& 8 <= byte_len(s) <= 30
    &&& all_password_chars(s)
    &&& contains_lowercase(s)
    &&& contains_uppercase(s)
    &&& contains_digit(s)
    &&& contains_special(s)
}

/// A display name fit for storage: non-empty and free of path separators.
pub open spec fn filename_ok(s: Seq<char>) -> bool {
    &&& s.len() > 0
    &&& forall|i: int| 0 <= i < s.len() ==> s[i] != '/' && #[trigger] s[i] != '\\'
}

fn is_username_char(c: char) -> (r: bool)
    ensures
        r == username_char_ok(c),
{
    let u = c as u32;
    (97 <= u && u <= 122) || (65 <= u && u <= 90) || (48 <= u && u <= 57) || c == '.' || c == '-'
        || c == '_'
}

fn is_password_char(c: char) -> (r: bool)
    ensures
        r == password_char_ok(c),
{
    is_username_char(c) || is_special_char(c)
}

fn is_special_char(c: char) -> (r: bool)
    ensures
        r == special_char(c),
{
    c == '.' || c == '_' || c == '-' || c == '*' || c == '#' || c == '%' || c == '&' || c == '$'
        || c == '?' || c == '!'
}

/// Username validation with the following requirements:
/// - 4-16 bytes of length
/// - only a-z, A-Z, 0-9, ., -, _
#[verifier::loop_isolation(false)]
pub fn username(u: &String) -> (r: (bool, String))
    ensures
        r.0 == username_ok(u@),
        r.0 ==> r.1@ == ""@,
        !(4 <= byte_len(u@) <= 16) ==> r.1@ == "Length of username not in bounds of 4-16"@,
        (4 <= byte_len(u@) <= 16 && !r.0) ==> r.1@ == "Contains non a-z, A-Z, ., _, - char"@,
{
    let n = u.as_str().as_bytes().len();
    if n < 4 || n > 16 {
        return (false, "Length of username not in bounds of 4-16".to_owned());
    }
    let m = u.as_str().unicode_len();
    let mut i: usize = 0;
    while i < m
        invariant
            m == u@.len(),
            i <= m,
            forall|j: int| 0 <= j < i ==> username_char_ok(#[trigger] u@[j]),
        decreases m - i,
    {
        let c = u.as_str().get_char(i);
        if !is_username_char(c) {
            return (false, "Contains non a-z, A-Z, ., _, - char".to_owned());
        }
        i += 1;
    }
    (true, "".to_owned())
}

/// Password validation with the following requirements, checked in this
/// order, with the message naming the first rule that failed:
/// - 8-30 bytes of length
/// - only a-z, A-Z, 0-9, ., _, -, *, #, %, &, $, ?, !
/// - at least one lowercase letter, uppercase letter, digit and special
///   character
#[verifier::loop_isolation(false)]
pub fn password(p: &String) -> (r: (bool, String))
    ensures
        r.0 == password_ok(p@),
        r.0 ==> r.1@ == ""@,
        !(8 <= byte_len(p@) <= 30) ==> r.1@ == "Length of password is not in bounds of 8-30"@,
        (8 <= byte_len(p@) <= 30 && !all_password_chars(p@)) ==> r.1@
            == "Includes disallowed char(s)"@,
        (8 <= byte_len(p@) <= 30 && all_password_chars(p@) && !contains_lowercase(p@)) ==> r.1@
            == "Does not include lowercase char"@,
        (8 <= byte_len(p@) <= 30 && all_password_chars(p@) && contains_lowercase(p@)
            && !contains_uppercase(p@)) ==> r.1@ == "Does not include uppercase char"@,
        (8 <= byte_len(p@) <= 30 && all_password_chars(p@) && contains_lowercase(p@)
            && contains_uppercase(p@) && !contains_digit(p@)) ==> r.1@ == "Does not include digit"@,
        (8 <= byte_len(p@) <= 30 && all_password_chars(p@) && contains_lowercase(p@)
            && contains_uppercase(p@) && contains_digit(p@) && !contains_special(p@)) ==> r.1@
            == "Does not include special char"@,
{
    let s = p.as_str();
    let n = s.as_bytes().len();
    if n < 8 || n > 30 {
        return (false, "Length of password is not in bounds of 8-30".to_owned());
    }
    let m = s.unicode_len();
    let mut has_lower = false;
    let mut has_upper = false;
    let mut has_digit = false;
    let mut has_special = false;
    let mut i: usize = 0;
    while i < m
        invariant
            m == p@.len(),
            i <= m,
            forall|j: int| 0 <= j < i ==> password_char_ok(#[trigger] p@[j]),
            has_lower == exists|j: int| 0 <= j < i && lowercase_char(#[trigger] p@[j]),
            has_upper == exists|j: int| 0 <= j < i && uppercase_char(#[trigger] p@[j]),
            has_digit == exists|j: int| 0 <= j < i && digit_char(#[trigger] p@[j]),
            has_special == exists|j: int| 0 <= j < i && special_char(#[trigger] p@[j]),
        decreases m - i,
    {
        let c = s.get_char(i);
        if !is_password_char(c) {
            return (false, "Includes disallowed char(s)".to_owned());
        }
        let u = c as u32;
        if 97 <= u && u <= 122 {
            has_lower = true;
        }
        if 65 <= u && u <= 90 {
            has_upper = true;
        }
        if 48 <= u && u <= 57 {
            has_digit = true;
        }
        if is_special_char(c) {
            has_special = true;
        }
        i += 1;
    }
    if !has_lower {
        return (false, "Does not include lowercase char".to_owned());
    }
    if !has_upper {
        return (false, "Does not include uppercase char".to_owned());
    }
    if !has_digit {
        return (false, "Does not include digit".to_owned());
    }
    if !has_special {
        return (false, "Does not include special char".to_owned());
    }
    (true, "".to_owned())
}

/// Display-name validation for stored files: non-empty, no '/' and no '\'.
#[verifier::loop_isolation(false)]
pub fn filename_valid(name: &String) -> (r: bool)
    ensures
        r == filename_ok(name@),
{
    let m = name.as_str().unicode_len();
    if m == 0 {
        return false;
    }
    let mut i: usize = 0;
    while i < m
        invariant
            m == name@.len(),
            i <= m,
            forall|j: int| 0 <= j < i ==> name@[j] != '/' && #[trigger] name@[j] != '\\',
        decreases m - i,
    {
        let c = name.as_str().get_char(i);
        if c == '/' || c == '\\' {
            return false;
        }
        i += 1;
    }
    true
}

} // verus!
