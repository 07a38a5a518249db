use vstd::prelude::*;

use crate::defs::text::{chars_of_str, same_chars};
use crate::defs::UnknownKeyword;

verus! {

/// A mips directive like `.text`, `.align`, `.half`, written as `.` and its snake_case name.
/// The `.` is not represented in the tokens: a directive token implicitly contains it.
#[derive(Debug, Clone, Copy, PartialEq, Eq, Structural)]
pub enum Directive {
    /// Align the next data item on the specified byte boundary
    Align,
    /// Store the string in the data segment without null terminator
    Ascii,
    /// Store the string in the data segment with null terminator
    Asciiz,
    /// Store the following values as bytes
    Byte,
    /// Begin the data segment
    Data,
    /// Store the following values as double precision floating point numbers
    Double,
    /// End macro definition
    EndMacro,
    /// Substitute the second operand for the first in the program (like C's #define)
    Eqv,
    /// Declare the label and byte length as a global data field
    Extern,
    /// Store the following values as single precision floating point numbers
    Float,
    /// Set the following labels as global
    Globl,
    /// Store the following values as half words (16 bit)
    Half,
    /// Includes the contents of a file, specified as path between quotes
    Include,
    /// Begin kdata segment
    Kdata,
    /// Begin ktext segment
    Ktext,
    /// Begin macro definition
    Macro,
    /// Reserve the specified amount of bytes in the data segment
    Space,
    /// Begin the text segment
    Text,
    /// Store the following values as words (32 bit)
    Word,
}

impl Directive {
    /// The exact text that names this keyword.
    pub open spec fn text(self) -> Seq<char> {
        match self {
            Directive::Align => seq!['a', 'l', 'i', 'g', 'n'],
            Directive::Ascii => seq!['a', 's', 'c', 'i', 'i'],
            Directive::Asciiz => seq!['a', 's', 'c', 'i', 'i', 'z'],
            Directive::Byte => seq!['b', 'y', 't', 'e'],
            Directive::Data => seq!['d', 'a', 't', 'a'],
            Directive::Double => seq!['d', 'o', 'u', 'b', 'l', 'e'],
            Directive::EndMacro => seq!['e', 'n', 'd', '_', 'm', 'a', 'c', 'r', 'o'],
            Directive::Eqv => seq!['e', 'q', 'v'],
            Directive::Extern => seq!['e', 'x', 't', 'e', 'r', 'n'],
            Directive::Float => seq!['f', 'l', 'o', 'a', 't'],
            Directive::Globl => seq!['g', 'l', 'o', 'b', 'l'],
            Directive::Half => seq!['h', 'a', 'l', 'f'],
            Directive::Include => seq!['i', 'n', 'c', 'l', 'u', 'd', 'e'],
            Directive::Kdata => seq!['k', 'd', 'a', 't', 'a'],
            Directive::Ktext => seq!['k', 't', 'e', 'x', 't'],
            Directive::Macro => seq!['m', 'a', 'c', 'r', 'o'],
            Directive::Space => seq!['s', 'p', 'a', 'c', 'e'],
            Directive::Text => seq!['t', 'e', 'x', 't'],
            Directive::Word => seq!['w', 'o', 'r', 'd'],
        }
    }

    /// The keyword whose text is exactly `t`, if any.
    pub open spec fn from_text(t: Seq<char>) -> Option<Directive> {
        if exists|k: Directive| k.text() == t {
            Some(choose|k: Directive| k.text() == t)
        } else {
            None
        }
    }

    /// No two keywords share a text.
    pub proof fn lemma_text_injective(a: Directive, b: Directive)
        requires
            a.text() == b.text(),
        ensures
            a == b,
    {
        let (t, u) = (a.text(), b.text());
        assert(t.len() == u.len());
        assert(t.len() > 0 ==> t[0] == u[0]);
        assert(t.len() > 1 ==> t[1] == u[1]);
        assert(t.len() > 2 ==> t[2] == u[2]);
        assert(t.len() > 3 ==> t[3] == u[3]);
        assert(t.len() > 4 ==> t[4] == u[4]);
        assert(t.len() > 5 ==> t[5] == u[5]);
        assert(t.len() > 6 ==> t[6] == u[6]);
        assert(t.len() > 7 ==> t[7] == u[7]);
        assert(t.len() > 8 ==> t[8] == u[8]);
    }

    /// The lookup finds each keyword by its own text.
    pub proof fn lemma_from_text(k: Directive)
        ensures
            Directive::from_text(k.text()) == Some(k),
    {
        let c = choose|m: Directive| m.text() == k.text();
        Directive::lemma_text_injective(c, k);
    }

    /// Looks up the keyword written exactly as `w` (case-sensitive).
    pub fn from_chars(w: &[char]) -> (r: Option<Directive>)
        ensures
            r == Directive::from_text(w@),
    {
        if same_chars(w, &['a', 'l', 'i', 'g', 'n']) {
            proof {
                Directive::lemma_from_text(Directive::Align);
            }
            return Some(Directive::Align);
        }
        if same_chars(w, &['a', 's', 'c', 'i', 'i']) {
            proof {
                Directive::lemma_from_text(Directive::Ascii);
            }
            return Some(Directive::Ascii);
        }
        if same_chars(w, &['a', 's', 'c', 'i', 'i', 'z']) {
            proof {
                Directive::lemma_from_text(Directive::Asciiz);
            }
            return Some(Directive::Asciiz);
        }
        if same_chars(w, &['b', 'y', 't', 'e']) {
            proof {
                Directive::lemma_from_text(Directive::Byte);
            }
            return Some(Directive::Byte);
        }
        if same_chars(w, &['d', 'a', 't', 'a']) {
            proof {
                Directive::lemma_from_text(Directive::Data);
            }
            return Some(Directive::Data);
        }
        if same_chars(w, &['d', 'o', 'u', 'b', 'l', 'e']) {
            proof {
                Directive::lemma_from_text(Directive::Double);
            }
            return Some(Directive::Double);
        }
        if same_chars(w, &['e', 'n', 'd', '_', 'm', 'a', 'c', 'r', 'o']) {
            proof {
                Directive::lemma_from_text(Directive::EndMacro);
            }
            return Some(Directive::EndMacro);
        }
        if same_chars(w, &['e', 'q', 'v']) {
            proof {
                Directive::lemma_from_text(Directive::Eqv);
            }
            return Some(Directive::Eqv);
        }
        if same_chars(w, &['e', 'x', 't', 'e', 'r', 'n']) {
            proof {
                Directive::lemma_from_text(Directive::Extern);
            }
            return Some(Directive::Extern);
        }
        if same_chars(w, &['f', 'l', 'o', 'a', 't']) {
            proof {
                Directive::lemma_from_text(Directive::Float);
            }
            return Some(Directive::Float);
        }
        if same_chars(w, &['g', 'l', 'o', 'b', 'l']) {
            proof {
                Directive::lemma_from_text(Directive::Globl);
            }
            return Some(Directive::Globl);
        }
        if same_chars(w, &['h', 'a', 'l', 'f']) {
            proof {
                Directive::lemma_from_text(Directive::Half);
            }
            return Some(Directive::Half);
        }
        if same_chars(w, &['i', 'n', 'c', 'l', 'u', 'd', 'e']) {
            proof {
                Directive::lemma_from_text(Directive::Include);
            }
            return Some(Directive::Include);
        }
        if same_chars(w, &['k', 'd', 'a', 't', 'a']) {
            proof {
                Directive::lemma_from_text(Directive::Kdata);
            }
            return Some(Directive::Kdata);
        }
        if same_chars(w, &['k', 't', 'e', 'x', 't']) {
            proof {
                Directive::lemma_from_text(Directive::Ktext);
            }
            return Some(Directive::Ktext);
        }
        if same_chars(w, &['m', 'a', 'c', 'r', 'o']) {
            proof {
                Directive::lemma_from_text(Directive::Macro);
            }
            return Some(Directive::Macro);
        }
        if same_chars(w, &['s', 'p', 'a', 'c', 'e']) {
            proof {
                Directive::lemma_from_text(Directive::Space);
            }
            return Some(Directive::Space);
        }
        if same_chars(w, &['t', 'e', 'x', 't']) {
            proof {
                Directive::lemma_from_text(Directive::Text);
            }
            return Some(Directive::Text);
        }
        if same_chars(w, &['w', 'o', 'r', 'd']) {
            proof {
                Directive::lemma_from_text(Directive::Word);
            }
            return Some(Directive::Word);
        }
        assert forall|k: Directive| k.text() != w@ by {
            match k {
                Directive::Align => {},
                Directive::Ascii => {},
                Directive::Asciiz => {},
                Directive::Byte => {},
                Directive::Data => {},
                Directive::Double => {},
                Directive::EndMacro => {},
                Directive::Eqv => {},
                Directive::Extern => {},
                Directive::Float => {},
                Directive::Globl => {},
                Directive::Half => {},
                Directive::Include => {},
                Directive::Kdata => {},
                Directive::Ktext => {},
                Directive::Macro => {},
                Directive::Space => {},
                Directive::Text => {},
                Directive::Word => {},
            }
        }
        None
    }
}

impl core::str::FromStr for Directive {
    type Err = UnknownKeyword;

    fn from_str(s: &str) -> (r: Result<Directive, UnknownKeyword>)
        ensures
            r == match Directive::from_text(s@) {
                Some(k) => Ok(k),
                None => Err(UnknownKeyword),
            },
    {
        let chars = chars_of_str(s);
        match Directive::from_chars(chars.as_slice()) {
            Some(k) => Ok(k),
            None => Err(UnknownKeyword),
        }
    }
}

} // verus!
