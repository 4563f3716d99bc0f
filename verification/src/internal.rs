//! The C-level vocabulary of the R runtime: the opaque value type, the
//! outcomes of a parse and the types of values, each with the number the
//! runtime uses for it.
use vstd::prelude::*;

verus! {

/// Opaque R value: only ever seen behind a pointer. Its one field is
/// private, so no code outside this module makes one.
pub struct R {
    _opaque: u8,
}

/// Represent result of a parse.
#[allow(non_camel_case_types)]
#[derive(Debug, Clone, Copy, PartialEq, Eq, Structural)]
pub enum ParseStatus {
    /// Parse had not happened.
    PARSE_NULL,
    /// Parse successful.
    PARSE_OK,
    /// Parse is incomplete.
    PARSE_INCOMPLETE,
    /// Error during parse.
    PARSE_ERROR,
    /// End of file during parse.
    PARSE_EOF,
}

/// The status that the runtime reports by the number `c`, if any.
pub open spec fn parse_status_of(c: int) -> Option<ParseStatus> {
    if c == 0 {
        Some(ParseStatus::PARSE_NULL)
    } else if c == 1 {
        Some(ParseStatus::PARSE_OK)
    } else if c == 2 {
        Some(ParseStatus::PARSE_INCOMPLETE)
    } else if c == 3 {
        Some(ParseStatus::PARSE_ERROR)
    } else if c == 4 {
        Some(ParseStatus::PARSE_EOF)
    } else {
        None
    }
}

impl ParseStatus {
    /// The number the runtime uses for this status.
    pub open spec fn spec_code(self) -> int {
        match self {
            ParseStatus::PARSE_NULL => 0,
            ParseStatus::PARSE_OK => 1,
            ParseStatus::PARSE_INCOMPLETE => 2,
            ParseStatus::PARSE_ERROR => 3,
            ParseStatus::PARSE_EOF => 4,
        }
    }

    /// The number the runtime uses for this status.
    pub fn code(&self) -> (c: i32)
        ensures
            c == self.spec_code(),
    {
        match self {
            ParseStatus::PARSE_NULL => 0,
            ParseStatus::PARSE_OK => 1,
            ParseStatus::PARSE_INCOMPLETE => 2,
            ParseStatus::PARSE_ERROR => 3,
            ParseStatus::PARSE_EOF => 4,
        }
    }

    /// The status that the runtime reports by the number `c`; `None` for a
    /// number that names no status.
    pub fn from_code(c: i32) -> (s: Option<ParseStatus>)
        ensures
            s == parse_status_of(c as int),
    {
        if c == 0 {
            Some(ParseStatus::PARSE_NULL)
        } else if c == 1 {
            Some(ParseStatus::PARSE_OK)
        } else if c == 2 {
            Some(ParseStatus::PARSE_INCOMPLETE)
        } else if c == 3 {
            Some(ParseStatus::PARSE_ERROR)
        } else if c == 4 {
            Some(ParseStatus::PARSE_EOF)
        } else {
            None
        }
    }
}

/// Reading back the number of a status gives the status again.
pub proof fn parse_status_code_roundtrip(s: ParseStatus)
    ensures
        parse_status_of(s.spec_code()) == Some(s),
{
}

/// A number that names a status is that status's number, and only the
/// numbers 0 to 4 name one.
pub proof fn parse_status_of_inverse(c: int)
    ensures
        parse_status_of(c) matches Some(s) ==> s.spec_code() == c,
        parse_status_of(c) is Some <==> 0 <= c <= 4,
{
}

/// Distinct statuses have distinct numbers.
pub proof fn parse_status_code_injective(a: ParseStatus, b: ParseStatus)
    ensures
        a.spec_code() == b.spec_code() ==> a == b,
{
}

/// Type of the R Value
#[allow(non_camel_case_types)]
#[derive(Debug, Clone, Copy, PartialEq, Eq, Structural)]
pub enum SEXPTYPE {
    /// NULL
    NILSXP,
    /// Symbols
    SYMSXP,
    /// List of dotted pairs
    LISTSXP,
    /// Closures
    CLOSXP,
    /// Environments
    ENVSXP,
    /// Promises (unevaluated closure arguments)
    PROMSXP,
    /// Language constructs (special lists)
    LANGSXP,
    /// Special forms
    SPECIALSXP,
    /// Builtin non-special forms
    BUILINSXP,
    /// "scalar" string type (internal only)
    CHARSXP,
    /// Logical vector
    LGLSXP,
    /// Integer vector
    INTSXP,
    /// Real vector
    REALSXP,
    /// Complex vector
    CPLSXP,
    /// String vector
    STRSXP,
    /// dot-dot-dot object
    DOTSXP,
    /// "any" argument
    ANYSXP,
    /// generic vector
    VECSXP,
    /// Expression vector
    EPRSXP,
    /// Bytecode
    BCODESXP,
    /// External pointer
    EXTPRSXP,
    /// Weak reference
    WEAKREFSXP,
    /// Raw bytes
    RAWSXP,
    /// S4 non-vector
    S4SXP,
    /// Fresh node created in new page
    NEWSXP,
    /// node released by GC
    FREESXP,
    /// Closure or Builtin
    FUNSXP,
}

/// The type that the runtime reports by the number `c`, if any.
pub open spec fn sexptype_of(c: int) -> Option<SEXPTYPE> {
    if c == 0 {
        Some(SEXPTYPE::NILSXP)
    } else if c == 1 {
        Some(SEXPTYPE::SYMSXP)
    } else if c == 2 {
        Some(SEXPTYPE::LISTSXP)
    } else if c == 3 {
        Some(SEXPTYPE::CLOSXP)
    } else if c == 4 {
        Some(SEXPTYPE::ENVSXP)
    } else if c == 5 {
        Some(SEXPTYPE::PROMSXP)
    } else if c == 6 {
        Some(SEXPTYPE::LANGSXP)
    } else if c == 7 {
        Some(SEXPTYPE::SPECIALSXP)
    } else if c == 8 {
        Some(SEXPTYPE::BUILINSXP)
    } else if c == 9 {
        Some(SEXPTYPE::CHARSXP)
    } else if c == 10 {
        Some(SEXPTYPE::LGLSXP)
    } else if c == 13 {
        Some(SEXPTYPE::INTSXP)
    } else if c == 14 {
        Some(SEXPTYPE::REALSXP)
    } else if c == 15 {
        Some(SEXPTYPE::CPLSXP)
    } else if c == 16 {
        Some(SEXPTYPE::STRSXP)
    } else if c == 17 {
        Some(SEXPTYPE::DOTSXP)
    } else if c == 18 {
        Some(SEXPTYPE::ANYSXP)
    } else if c == 19 {
        Some(SEXPTYPE::VECSXP)
    } else if c == 20 {
        Some(SEXPTYPE::EPRSXP)
    } else if c == 21 {
        Some(SEXPTYPE::BCODESXP)
    } else if c == 22 {
        Some(SEXPTYPE::EXTPRSXP)
    } else if c == 23 {
        Some(SEXPTYPE::WEAKREFSXP)
    } else if c == 24 {
        Some(SEXPTYPE::RAWSXP)
    } else if c == 25 {
        Some(SEXPTYPE::S4SXP)
    } else if c == 30 {
        Some(SEXPTYPE::NEWSXP)
    } else if c == 31 {
        Some(SEXPTYPE::FREESXP)
    } else if c == 99 {
        Some(SEXPTYPE::FUNSXP)
    } else {
        None
    }
}

impl SEXPTYPE {
    /// The number the runtime uses for this type.
    pub open spec fn spec_code(self) -> int {
        match self {
            SEXPTYPE::NILSXP => 0,
            SEXPTYPE::SYMSXP => 1,
            SEXPTYPE::LISTSXP => 2,
            SEXPTYPE::CLOSXP => 3,
            SEXPTYPE::ENVSXP => 4,
            SEXPTYPE::PROMSXP => 5,
            SEXPTYPE::LANGSXP => 6,
            SEXPTYPE::SPECIALSXP => 7,
            SEXPTYPE::BUILINSXP => 8,
            SEXPTYPE::CHARSXP => 9,
            SEXPTYPE::LGLSXP => 10,
            SEXPTYPE::INTSXP => 13,
            SEXPTYPE::REALSXP => 14,
            SEXPTYPE::CPLSXP => 15,
            SEXPTYPE::STRSXP => 16,
            SEXPTYPE::DOTSXP => 17,
            SEXPTYPE::ANYSXP => 18,
            SEXPTYPE::VECSXP => 19,
            SEXPTYPE::EPRSXP => 20,
            SEXPTYPE::BCODESXP => 21,
            SEXPTYPE::EXTPRSXP => 22,
            SEXPTYPE::WEAKREFSXP => 23,
            SEXPTYPE::RAWSXP => 24,
            SEXPTYPE::S4SXP => 25,
            SEXPTYPE::NEWSXP => 30,
            SEXPTYPE::FREESXP => 31,
            SEXPTYPE::FUNSXP => 99,
        }
    }

    /// The number the runtime uses for this type.
    pub fn code(&self) -> (c: i32)
        ensures
            c == self.spec_code(),
    {
        match self {
            SEXPTYPE::NILSXP => 0,
            SEXPTYPE::SYMSXP => 1,
            SEXPTYPE::LISTSXP => 2,
            SEXPTYPE::CLOSXP => 3,
            SEXPTYPE::ENVSXP => 4,
            SEXPTYPE::PROMSXP => 5,
            SEXPTYPE::LANGSXP => 6,
            SEXPTYPE::SPECIALSXP => 7,
            SEXPTYPE::BUILINSXP => 8,
            SEXPTYPE::CHARSXP => 9,
            SEXPTYPE::LGLSXP => 10,
            SEXPTYPE::INTSXP => 13,
            SEXPTYPE::REALSXP => 14,
            SEXPTYPE::CPLSXP => 15,
            SEXPTYPE::STRSXP => 16,
            SEXPTYPE::DOTSXP => 17,
            SEXPTYPE::ANYSXP => 18,
            SEXPTYPE::VECSXP => 19,
            SEXPTYPE::EPRSXP => 20,
            SEXPTYPE::BCODESXP => 21,
            SEXPTYPE::EXTPRSXP => 22,
            SEXPTYPE::WEAKREFSXP => 23,
            SEXPTYPE::RAWSXP => 24,
            SEXPTYPE::S4SXP => 25,
            SEXPTYPE::NEWSXP => 30,
            SEXPTYPE::FREESXP => 31,
            SEXPTYPE::FUNSXP => 99,
        }
    }

    /// The type that the runtime reports by the number `c`; `None` for a
    /// number that names no type.
    pub fn from_code(c: i32) -> (t: Option<SEXPTYPE>)
        ensures
            t == sexptype_of(c as int),
    {
        if c == 0 {
            Some(SEXPTYPE::NILSXP)
        } else if c == 1 {
            Some(SEXPTYPE::SYMSXP)
        } else if c == 2 {
            Some(SEXPTYPE::LISTSXP)
        } else if c == 3 {
            Some(SEXPTYPE::CLOSXP)
        } else if c == 4 {
            Some(SEXPTYPE::ENVSXP)
        } else if c == 5 {
            Some(SEXPTYPE::PROMSXP)
        } else if c == 6 {
            Some(SEXPTYPE::LANGSXP)
        } else if c == 7 {
            Some(SEXPTYPE::SPECIALSXP)
        } else if c == 8 {
            Some(SEXPTYPE::BUILINSXP)
        } else if c == 9 {
            Some(SEXPTYPE::CHARSXP)
        } else if c == 10 {
            Some(SEXPTYPE::LGLSXP)
        } else if c == 13 {
            Some(SEXPTYPE::INTSXP)
        } else if c == 14 {
            Some(SEXPTYPE::REALSXP)
        } else if c == 15 {
            Some(SEXPTYPE::CPLSXP)
        } else if c == 16 {
            Some(SEXPTYPE::STRSXP)
        } else if c == 17 {
            Some(SEXPTYPE::DOTSXP)
        } else if c == 18 {
            Some(SEXPTYPE::ANYSXP)
        } else if c == 19 {
            Some(SEXPTYPE::VECSXP)
        } else if c == 20 {
            Some(SEXPTYPE::EPRSXP)
        } else if c == 21 {
            Some(SEXPTYPE::BCODESXP)
        } else if c == 22 {
            Some(SEXPTYPE::EXTPRSXP)
        } else if c == 23 {
            Some(SEXPTYPE::WEAKREFSXP)
        } else if c == 24 {
            Some(SEXPTYPE::RAWSXP)
        } else if c == 25 {
            Some(SEXPTYPE::S4SXP)
        } else if c == 30 {
            Some(SEXPTYPE::NEWSXP)
        } else if c == 31 {
            Some(SEXPTYPE::FREESXP)
        } else if c == 99 {
            Some(SEXPTYPE::FUNSXP)
        } else {
            None
        }
    }
}

/// Reading back the number of a type gives the type again.
pub proof fn sexptype_code_roundtrip(t: SEXPTYPE)
    ensures
        sexptype_of(t.spec_code()) == Some(t),
{
}

/// A number that names a type is that type's number.
pub proof fn sexptype_of_inverse(c: int)
    ensures
        sexptype_of(c) matches Some(t) ==> t.spec_code() == c,
{
}

/// Distinct types have distinct numbers.
pub proof fn sexptype_code_injective(a: SEXPTYPE, b: SEXPTYPE)
    ensures
        a.spec_code() == b.spec_code() ==> a == b,
{
}

} // verus!
