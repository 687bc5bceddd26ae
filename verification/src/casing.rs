//! The casing transforms applied to variant identifiers (assumed to be
//! declared in UpperCamelCase), and small verified helpers over strings.
use vstd::prelude::*;
use vstd::string::{StrSliceExecFns, StringExecFns};

use crate::decl::NamingStyle;

verus! {

/// ASCII lower-casing of one character; everything outside `'A'..='Z'` is
/// kept as it is.
pub open spec fn spec_lower_char(c: char) -> char {
    match c {
        'A' => 'a',
        'B' => 'b',
        'C' => 'c',
        'D' => 'd',
        'E' => 'e',
        'F' => 'f',
        'G' => 'g',
        'H' => 'h',
        'I' => 'i',
        'J' => 'j',
        'K' => 'k',
        'L' => 'l',
        'M' => 'm',
        'N' => 'n',
        'O' => 'o',
        'P' => 'p',
        'Q' => 'q',
        'R' => 'r',
        'S' => 's',
        'T' => 't',
        'U' => 'u',
        'V' => 'v',
        'W' => 'w',
        'X' => 'x',
        'Y' => 'y',
        'Z' => 'z',
        _ => c,
    }
}

/// A character counts as upper-case exactly when lower-casing changes it.
pub open spec fn spec_is_upper(c: char) -> bool {
    spec_lower_char(c) != c
}

pub fn lower_char(c: char) -> (r: char)
    ensures
        r == spec_lower_char(c),
{
    match c {
        'A' => 'a',
        'B' => 'b',
        'C' => 'c',
        'D' => 'd',
        'E' => 'e',
        'F' => 'f',
        'G' => 'g',
        'H' => 'h',
        'I' => 'i',
        'J' => 'j',
        'K' => 'k',
        'L' => 'l',
        'M' => 'm',
        'N' => 'n',
        'O' => 'o',
        'P' => 'p',
        'Q' => 'q',
        'R' => 'r',
        'S' => 's',
        'T' => 't',
        'U' => 'u',
        'V' => 'v',
        'W' => 'w',
        'X' => 'x',
        'Y' => 'y',
        'Z' => 'z',
        _ => c,
    }
}

pub fn is_upper(c: char) -> (r: bool)
    ensures
        r == spec_is_upper(c),
{
    let l = lower_char(c);
    l != c
}

/// The snake_case transform: the first character lower-cased; every later
/// upper-case character becomes an underscore followed by its lower-cased
/// form; every other character is kept. The empty identifier stays empty.
pub open spec fn spec_snake_case(s: Seq<char>) -> Seq<char>
    decreases s.len(),
{
    if s.len() == 0 {
        Seq::empty()
    } else if s.len() == 1 {
        seq![spec_lower_char(s[0])]
    } else {
        spec_snake_case(s.drop_last()) + (if spec_is_upper(s.last()) {
            seq!['_', spec_lower_char(s.last())]
        } else {
            seq![s.last()]
        })
    }
}

/// The camelCase transform: only the first character is lower-cased.
pub open spec fn spec_camel_case(s: Seq<char>) -> Seq<char> {
    if s.len() == 0 {
        s
    } else {
        s.update(0, spec_lower_char(s[0]))
    }
}

/// The canonical form of an identifier under a naming style.
pub open spec fn spec_apply_style(name: Seq<char>, style: NamingStyle) -> Seq<char> {
    match style {
        NamingStyle::SnakeCase => spec_snake_case(name),
        NamingStyle::CamelCase => spec_camel_case(name),
        NamingStyle::Unchanged => name,
    }
}

/// Relies on `String`'s `FromIterator<char>` (via `Iterator::collect`):
/// collecting characters yields the string made of exactly those characters,
/// in order.
#[verifier::external_body]
fn chars_to_string(chars: &Vec<char>) -> (out: String)
    ensures
        out@ == chars@,
{
    chars.iter().collect()
}

pub fn to_snake_case(v: &str) -> (out: String)
    ensures
        out@ == spec_snake_case(v@),
{
    let n = v.unicode_len();
    let mut chars: Vec<char> = Vec::new();
    if n == 0 {
        return chars_to_string(&chars);
    }
    chars.push(lower_char(v.get_char(0)));
    proof {
        assert(v@.take(1).len() == 1);
        assert(v@.take(1)[0] == v@[0]);
        assert(chars@ =~= spec_snake_case(v@.take(1)));
    }
    let mut i: usize = 1;
    while i < n
        invariant
            1 <= i <= n,
            n == v@.len(),
            chars@ == spec_snake_case(v@.take(i as int)),
        decreases n - i,
    {
        let c = v.get_char(i);
        if is_upper(c) {
            chars.push('_');
            chars.push(lower_char(c));
        } else {
            chars.push(c);
        }
        proof {
            assert(v@.take(i as int + 1).drop_last() =~= v@.take(i as int));
            assert(v@.take(i as int + 1).last() == v@[i as int]);
            assert(chars@ =~= spec_snake_case(v@.take(i as int + 1)));
        }
        i += 1;
    }
    proof {
        assert(v@.take(n as int) =~= v@);
    }
    chars_to_string(&chars)
}

pub fn to_camel_case(v: &str) -> (out: String)
    ensures
        out@ == spec_camel_case(v@),
{
    let n = v.unicode_len();
    let mut chars: Vec<char> = Vec::new();
    let mut i: usize = 0;
    while i < n
        invariant
            0 <= i <= n,
            n == v@.len(),
            chars@ == spec_camel_case(v@).take(i as int),
        decreases n - i,
    {
        let c = v.get_char(i);
        let c2 = if i == 0 {
            lower_char(c)
        } else {
            c
        };
        chars.push(c2);
        proof {
            assert(chars@ =~= spec_camel_case(v@).take(i as int + 1));
        }
        i += 1;
    }
    proof {
        assert(spec_camel_case(v@).take(n as int) =~= spec_camel_case(v@));
    }
    chars_to_string(&chars)
}

pub fn apply_style(name: &str, style: NamingStyle) -> (out: String)
    ensures
        out@ == spec_apply_style(name@, style),
{
    match style {
        NamingStyle::SnakeCase => to_snake_case(name),
        NamingStyle::CamelCase => to_camel_case(name),
        NamingStyle::Unchanged => String::from_str(name),
    }
}

/// Character-for-character equality of two string slices.
pub fn str_eq(a: &str, b: &str) -> (r: bool)
    ensures
        r == (a@ == b@),
{
    let na = a.unicode_len();
    let nb = b.unicode_len();
    if na != nb {
        return false;
    }
    let mut i: usize = 0;
    while i < na
        invariant
            0 <= i <= na,
            na == a@.len(),
            na == b@.len(),
            forall|j: int| 0 <= j < i ==> a@[j] == b@[j],
        decreases na - i,
    {
        if a.get_char(i) != b.get_char(i) {
            return false;
        }
        i += 1;
    }
    proof {
        assert(a@ =~= b@);
    }
    true
}

} // verus!
