use vstd::prelude::*;

verus! {

/// ASCII codes of the first and last digit and upper-case letter.
pub const DIGIT_FIRST: u8 = 48;
pub const DIGIT_LAST: u8 = 57;
pub const LETTER_FIRST: u8 = 65;
pub const LETTER_LAST: u8 = 90;

/// One symbol of a sequence, stored as its ASCII code.
#[derive(Debug, Clone, Copy, PartialEq, Eq, Structural)]
pub enum CharType {
    Number(u8),
    Letter(u8),
}

impl CharType {
    /// The character code the symbol carries.
    pub open spec fn code(self) -> u8 {
        match self {
            CharType::Number(n) => n,
            CharType::Letter(l) => l,
        }
    }

    /// The character the symbol displays as.
    pub open spec fn spec_char(self) -> char {
        self.code() as char
    }

    /// A digit `0`-`9` or an upper-case letter `A`-`Z`, with the matching tag.
    pub open spec fn is_valid(self) -> bool {
        match self {
            CharType::Number(n) => DIGIT_FIRST <= n <= DIGIT_LAST,
            CharType::Letter(l) => LETTER_FIRST <= l <= LETTER_LAST,
        }
    }

    pub fn as_char(&self) -> (r: char)
        ensures
            r == self.spec_char(),
            r as u32 == self.code() as u32,
    {
        match self {
            CharType::Number(n) => *n as char,
            CharType::Letter(l) => *l as char,
        }
    }

    /// The symbol for a key named by one digit or one upper-case letter;
    /// `None` for any other name.
    pub fn from_key_name(name: &str) -> (r: Option<CharType>)
        ensures
            r is Some <==> name@.len() == 1 && ('0' <= name@[0] <= '9' || 'A' <= name@[0] <= 'Z'),
            name@.len() == 1 && '0' <= name@[0] <= '9' ==> r == Some(CharType::Number(name@[0] as u8)),
            name@.len() == 1 && 'A' <= name@[0] <= 'Z' ==> r == Some(CharType::Letter(name@[0] as u8)),
            r matches Some(s) ==> s.is_valid(),
    {
        if name.unicode_len() != 1 {
            return None;
        }
        let c = name.get_char(0);
        if '0' <= c && c <= '9' {
            Some(CharType::Number(c as u8))
        } else if 'A' <= c && c <= 'Z' {
            Some(CharType::Letter(c as u8))
        } else {
            None
        }
    }

    /// Reads a typed key: a digit becomes a number, anything else a letter,
    /// upper-cased when it is an ASCII lower-case letter. The code is the low
    /// byte of the character.
    pub fn from_char(c: char) -> (r: CharType)
        ensures
            '0' <= c <= '9' ==> r == CharType::Number(c as u8),
            !('0' <= c <= '9') && 'a' <= c <= 'z' ==> r == CharType::Letter(
                ((c as u32) - 32) as u8,
            ),
            !('0' <= c <= '9') && !('a' <= c <= 'z') ==> r == CharType::Letter(c as u8),
            'A' <= c <= 'Z' || 'a' <= c <= 'z' || '0' <= c <= '9' ==> r.is_valid(),
    {
        if '0' <= c && c <= '9' {
            CharType::Number(c as u8)
        } else if 'a' <= c && c <= 'z' {
            CharType::Letter(((c as u32) - 32) as u8)
        } else {
            CharType::Letter(c as u8)
        }
    }
}

} // verus!
