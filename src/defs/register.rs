use vstd::prelude::*;

use crate::defs::numeral::{parse_u8, u8_of};
use crate::defs::text::{chars_of_str, same_chars, string_from_chars};
use vstd::string::StringExecFns;
use crate::defs::UnknownKeyword;

verus! {

/// Why the text after a `$` names no register.
#[derive(Debug, PartialEq, Eq)]
pub enum RegisterParseError {
    /// The first of two characters is none of `v`, `a`, `t`, `s`, `k`.
    InvalidPrefix(char),
    /// The index after the prefix is not a digit.
    InvalidIndex(String),
    /// The number, or the index after the prefix, is too large.
    OutOfRange(u8),
    /// The text has none of the register forms.
    Other,
}

impl RegisterParseError {
    /// The title of the error.
    pub open spec fn message_spec(&self) -> Seq<char> {
        match self {
            RegisterParseError::InvalidPrefix(c) => "\""@ + seq![*c]
                + "\" is not a valid register prefix"@,
            RegisterParseError::InvalidIndex(i) => "\""@ + i@
                + "\" is not a valid register index"@,
            RegisterParseError::OutOfRange(_) => "Register number is out of range"@,
            RegisterParseError::Other => "Couldn't parse register"@,
        }
    }

    /// The text of the label that marks the register in the source.
    pub open spec fn label_spec(&self) -> Seq<char> {
        match self {
            RegisterParseError::InvalidPrefix(_) => "Prefix for this register is invalid"@,
            RegisterParseError::InvalidIndex(_) => "Index for this register is invalid"@,
            RegisterParseError::OutOfRange(_) => "Index for this register is out of range"@,
            RegisterParseError::Other => "This register is invalid"@,
        }
    }

    /// The note that lists the valid registers.
    pub open spec fn note_spec(&self) -> Seq<char> {
        match self {
            RegisterParseError::InvalidPrefix(_) =>
                "Prefix must be one of 'v','a','t','s','k' so that the register name is one of $0-$31 or $a0-$a3,$t0-$t9,$s0-$s7,$k0-$k1,$v0-$v1 or $ra,$at,$gp,$sp,$fp."@,
            _ =>
                "Register must be one of $0-$31 or $a0-$a3,$t0-$t9,$s0-$s7,$k0-$k1,$v0-$v1 or $ra,$at,$gp,$sp,$fp."@,
        }
    }

    /// The title of the error.
    pub fn general_message(&self) -> (r: String)
        ensures
            r@ == self.message_spec(),
    {
        match self {
            RegisterParseError::InvalidPrefix(c) => {
                let mut m = "\"".to_owned();
                m.append(string_from_chars(&[*c]).as_str());
                m.append("\" is not a valid register prefix");
                m
            },
            RegisterParseError::InvalidIndex(i) => {
                let mut m = "\"".to_owned();
                m.append(i.as_str());
                m.append("\" is not a valid register index");
                m
            },
            RegisterParseError::OutOfRange(_) => "Register number is out of range".to_owned(),
            RegisterParseError::Other => "Couldn't parse register".to_owned(),
        }
    }

    /// The text of the label that marks the register in the source.
    pub fn label(&self) -> (r: String)
        ensures
            r@ == self.label_spec(),
    {
        match self {
            RegisterParseError::InvalidPrefix(_) => "Prefix for this register is invalid",
            RegisterParseError::InvalidIndex(_) => "Index for this register is invalid",
            RegisterParseError::OutOfRange(_) => "Index for this register is out of range",
            RegisterParseError::Other => "This register is invalid",
        }.to_owned()
    }

    /// A note that lists the valid registers.
    pub fn note(&self) -> (r: Option<String>)
        ensures
            r matches Some(n) && n@ == self.note_spec(),
    {
        match self {
            RegisterParseError::InvalidPrefix(_) => Some(
                "Prefix must be one of 'v','a','t','s','k' so that the register name is one of $0-$31 or $a0-$a3,$t0-$t9,$s0-$s7,$k0-$k1,$v0-$v1 or $ra,$at,$gp,$sp,$fp.".to_owned(),
            ),
            _ => Some(
                "Register must be one of $0-$31 or $a0-$a3,$t0-$t9,$s0-$s7,$k0-$k1,$v0-$v1 or $ra,$at,$gp,$sp,$fp.".to_owned(),
            ),
        }
    }
}

/// Identifies a valid register in the CPU.
#[derive(Debug, Clone, Copy, PartialEq, Eq, Structural)]
pub enum Register {
    /// Register identified directly by number, like `$31`.
    Number(u8),
    /// Register identified by letter and number, like `$s1` or `$t1`.
    PrefixedNumber(RegisterPrefixedName),
    /// Register identified by name, like `$ra`.
    Name(RegisterName),
}

/// A register alias made of a class letter and a one-digit index, like `$t3`.
#[derive(Debug, Clone, Copy, PartialEq, Eq, Structural)]
pub struct RegisterPrefixedName {
    /// The prefix of the register alias, one of 'v','a','t','s','k'.
    pub prefix: char,
    /// The number after the prefix.
    pub index: u8,
}

/// The registers that go by a name of their own.
#[derive(Debug, Clone, Copy, PartialEq, Eq, Structural)]
pub enum RegisterName {
    At,
    Gp,
    Sp,
    Fp,
    Ra,
}

/// The largest index that a register class allows (`$v0`-`$v1`, `$a0`-`$a3`, `$t0`-`$t9`,
/// `$s0`-`$s7`, `$k0`-`$k1`); `None` for a letter that names no class.
pub open spec fn prefix_max(c: char) -> Option<u8> {
    if c == 'v' {
        Some(1u8)
    } else if c == 'a' {
        Some(3u8)
    } else if c == 't' {
        Some(9u8)
    } else if c == 's' {
        Some(7u8)
    } else if c == 'k' {
        Some(1u8)
    } else {
        None
    }
}

impl RegisterName {
    /// The lowercase name that writes the register after the `$`.
    pub open spec fn text(self) -> Seq<char> {
        match self {
            RegisterName::At => seq!['a', 't'],
            RegisterName::Gp => seq!['g', 'p'],
            RegisterName::Sp => seq!['s', 'p'],
            RegisterName::Fp => seq!['f', 'p'],
            RegisterName::Ra => seq!['r', 'a'],
        }
    }

    /// The register whose name is exactly `t`, if any.
    pub open spec fn from_text(t: Seq<char>) -> Option<RegisterName> {
        if exists|n: RegisterName| n.text() == t {
            Some(choose|n: RegisterName| n.text() == t)
        } else {
            None
        }
    }

    /// No two registers share a name.
    pub proof fn lemma_text_injective(a: RegisterName, b: RegisterName)
        requires
            a.text() == b.text(),
        ensures
            a == b,
    {
        let (t, u) = (a.text(), b.text());
        assert(t[0] == u[0] && t[1] == u[1]);
    }

    /// The lookup finds each register by its own name.
    pub proof fn lemma_from_text(n: RegisterName)
        ensures
            RegisterName::from_text(n.text()) == Some(n),
    {
        let c = choose|m: RegisterName| m.text() == n.text();
        RegisterName::lemma_text_injective(c, n);
    }

    /// Looks up the register named exactly `w` (case-sensitive).
    pub fn from_chars(w: &[char]) -> (r: Option<RegisterName>)
        ensures
            r == RegisterName::from_text(w@),
    {
        let r = if same_chars(w, &['a', 't']) {
            Some(RegisterName::At)
        } else if same_chars(w, &['g', 'p']) {
            Some(RegisterName::Gp)
        } else if same_chars(w, &['s', 'p']) {
            Some(RegisterName::Sp)
        } else if same_chars(w, &['f', 'p']) {
            Some(RegisterName::Fp)
        } else if same_chars(w, &['r', 'a']) {
            Some(RegisterName::Ra)
        } else {
            None
        };
        proof {
            match r {
                Some(n) => RegisterName::lemma_from_text(n),
                None => {
                    assert forall|n: RegisterName| n.text() != w@ by {
                        match n {
                            RegisterName::At => {},
                            RegisterName::Gp => {},
                            RegisterName::Sp => {},
                            RegisterName::Fp => {},
                            RegisterName::Ra => {},
                        }
                    }
                },
            }
        }
        r
    }
}

impl core::str::FromStr for RegisterName {
    type Err = UnknownKeyword;

    fn from_str(s: &str) -> (r: Result<RegisterName, UnknownKeyword>)
        ensures
            r == match RegisterName::from_text(s@) {
                Some(n) => Ok(n),
                None => Err(UnknownKeyword),
            },
    {
        let chars = chars_of_str(s);
        match RegisterName::from_chars(chars.as_slice()) {
            Some(n) => Ok(n),
            None => Err(UnknownKeyword),
        }
    }
}

impl RegisterPrefixedName {
    /// Builds a prefixed name without checking the prefix or the index.
    pub fn new_unchecked(prefix: char, index: u8) -> (r: Self)
        ensures
            r.prefix == prefix,
            r.index == index,
    {
        Self { prefix, index }
    }

    /// The prefixed register that two characters write, or why they write none.
    pub open spec fn parse_spec(s: Seq<char>) -> Result<RegisterPrefixedName, RegisterParseError> {
        if s.len() != 2 {
            Err(RegisterParseError::Other)
        } else {
            match prefix_max(s[0]) {
                None => Err(RegisterParseError::InvalidPrefix(s[0])),
                Some(max) => if '0' <= s[1] && s[1] <= '9' {
                    let index = (s[1] as u32 - '0' as u32) as u8;
                    if index > max {
                        Err(RegisterParseError::OutOfRange(index))
                    } else {
                        Ok(RegisterPrefixedName { prefix: s[0], index })
                    }
                } else {
                    Err(RegisterParseError::Other)
                },
            }
        }
    }

    /// Reads a prefixed register name such as `s7` from its two characters.
    pub fn parse(chars: &[char]) -> (r: Result<RegisterPrefixedName, RegisterParseError>)
        ensures
            r == RegisterPrefixedName::parse_spec(chars@),
    {
        // there must be exactly 2 chars: ['s','7']
        if chars.len() != 2 {
            return Err(RegisterParseError::Other);
        }
        let prefix = chars[0];
        // the largest index of each class: there is only $v0-$v1, $a0-$a3, ...
        let max: u8 = if prefix == 'v' {
            1
        } else if prefix == 'a' {
            3
        } else if prefix == 't' {
            9
        } else if prefix == 's' {
            7
        } else if prefix == 'k' {
            1
        } else {
            return Err(RegisterParseError::InvalidPrefix(prefix));
        };
        let digit = chars[1];
        if !('0' <= digit && digit <= '9') {
            return Err(RegisterParseError::Other);
        }
        let index = (digit as u32 - '0' as u32) as u8;
        if index > max {
            return Err(RegisterParseError::OutOfRange(index));
        }
        Ok(RegisterPrefixedName { prefix, index })
    }
}

impl<'a> TryFrom<&'a [char]> for RegisterPrefixedName {
    type Error = RegisterParseError;

    fn try_from(chars: &'a [char]) -> (r: Result<RegisterPrefixedName, RegisterParseError>) {
        RegisterPrefixedName::parse(chars)
    }
}

impl<'a> vstd::std_specs::convert::TryFromSpecImpl<&'a [char]> for RegisterPrefixedName {
    open spec fn obeys_try_from_spec() -> bool {
        true
    }

    open spec fn try_from_spec(chars: &'a [char]) -> Result<
        RegisterPrefixedName,
        RegisterParseError,
    > {
        RegisterPrefixedName::parse_spec(chars@)
    }
}

impl Register {
    /// What the text after a `$` names, tried in this order: a register name; a number that
    /// `u8` holds (below 32, else out of range); a class letter and a digit; else nothing.
    pub open spec fn parse_spec(s: Seq<char>) -> Result<Register, RegisterParseError> {
        match RegisterName::from_text(s) {
            Some(name) => Ok(Register::Name(name)),
            None => match u8_of(s) {
                Some(n) => if n >= 32 {
                    Err(RegisterParseError::OutOfRange(n))
                } else {
                    Ok(Register::Number(n))
                },
                None => if s.len() == 2 {
                    match RegisterPrefixedName::parse_spec(s) {
                        Ok(p) => Ok(Register::PrefixedNumber(p)),
                        Err(e) => Err(e),
                    }
                } else {
                    Err(RegisterParseError::Other)
                },
            },
        }
    }

    /// Classifies the text after a `$`.
    pub fn parse(value: &[char]) -> (r: Result<Register, RegisterParseError>)
        ensures
            r == Register::parse_spec(value@),
    {
        // try to parse the register from name
        if let Some(name) = RegisterName::from_chars(value) {
            return Ok(Register::Name(name));
        }
        // try to parse the register as a number $0-$31
        if let Some(num) = parse_u8(value) {
            if num >= 32 {
                return Err(RegisterParseError::OutOfRange(num));
            }
            return Ok(Register::Number(num));
        }
        if value.len() == 2 {
            // try to parse the register as a prefixed alias like $v0,$s3...
            return match RegisterPrefixedName::parse(value) {
                Ok(reg) => Ok(Register::PrefixedNumber(reg)),
                Err(err) => Err(err),
            };
        }
        Err(RegisterParseError::Other)
    }
}

impl<'a> TryFrom<&'a [char]> for Register {
    type Error = RegisterParseError;

    fn try_from(value: &'a [char]) -> (r: Result<Register, RegisterParseError>) {
        Register::parse(value)
    }
}

impl<'a> vstd::std_specs::convert::TryFromSpecImpl<&'a [char]> for Register {
    open spec fn obeys_try_from_spec() -> bool {
        true
    }

    open spec fn try_from_spec(value: &'a [char]) -> Result<Register, RegisterParseError> {
        Register::parse_spec(value@)
    }
}

} // verus!
