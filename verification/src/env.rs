//! Naming of credential lookup keys.
//!
//! Reading the environment itself happens outside the library; here
//! stands only the pure derivation of the key name from a provider id.

use vstd::prelude::*;
use vstd::string::StrSliceExecFns;
use vstd::string::StringExecFns;

use crate::strutil::push_char;

verus! {

/// One character of a provider id mapped into key-name form: an ASCII
/// lowercase letter is uppercased, a dash becomes an underscore, and any
/// other character stays as it is.
pub open spec fn spec_env_char(c: char) -> char {
    if c == 'a' {
        'A'
    } else if c == 'b' {
        'B'
    } else if c == 'c' {
        'C'
    } else if c == 'd' {
        'D'
    } else if c == 'e' {
        'E'
    } else if c == 'f' {
        'F'
    } else if c == 'g' {
        'G'
    } else if c == 'h' {
        'H'
    } else if c == 'i' {
        'I'
    } else if c == 'j' {
        'J'
    } else if c == 'k' {
        'K'
    } else if c == 'l' {
        'L'
    } else if c == 'm' {
        'M'
    } else if c == 'n' {
        'N'
    } else if c == 'o' {
        'O'
    } else if c == 'p' {
        'P'
    } else if c == 'q' {
        'Q'
    } else if c == 'r' {
        'R'
    } else if c == 's' {
        'S'
    } else if c == 't' {
        'T'
    } else if c == 'u' {
        'U'
    } else if c == 'v' {
        'V'
    } else if c == 'w' {
        'W'
    } else if c == 'x' {
        'X'
    } else if c == 'y' {
        'Y'
    } else if c == 'z' {
        'Z'
    } else if c == '-' {
        '_'
    } else {
        c
    }
}

/// The environment key name that credential lookup uses for a provider:
/// the provider id uppercased with dashes as underscores, then
/// `_API_KEY`.
pub open spec fn spec_api_key_name(provider: Seq<char>) -> Seq<char> {
    provider.map_values(|c: char| spec_env_char(c)) + "_API_KEY"@
}

/// Environment-style configuration names.
pub struct EnvConfig;

impl EnvConfig {
    /// One character mapped into key-name form.
    fn env_char(c: char) -> (r: char)
        ensures
            r == spec_env_char(c),
    {
        match c {
            'a' => 'A',
            'b' => 'B',
            'c' => 'C',
            'd' => 'D',
            'e' => 'E',
            'f' => 'F',
            'g' => 'G',
            'h' => 'H',
            'i' => 'I',
            'j' => 'J',
            'k' => 'K',
            'l' => 'L',
            'm' => 'M',
            'n' => 'N',
            'o' => 'O',
            'p' => 'P',
            'q' => 'Q',
            'r' => 'R',
            's' => 'S',
            't' => 'T',
            'u' => 'U',
            'v' => 'V',
            'w' => 'W',
            'x' => 'X',
            'y' => 'Y',
            'z' => 'Z',
            '-' => '_',
            other => other,
        }
    }

    /// The environment key name under which a provider's credential is
    /// looked up.
    pub fn api_key_name(provider: &str) -> (r: String)
        ensures
            r@ == spec_api_key_name(provider@),
    {
        let len = provider.unicode_len();
        let mut out = String::new();
        let mut i: usize = 0;
        while i < len
            invariant
                i <= len,
                len == provider@.len(),
                out@.len() == i,
                forall|k: int| 0 <= k < i ==> out@[k] == spec_env_char(provider@[k]),
            decreases len - i,
        {
            let c = Self::env_char(provider.get_char(i));
            push_char(&mut out, c);
            i += 1;
        }
        out.append("_API_KEY");
        proof {
            assert(out@ =~= spec_api_key_name(provider@));
        }
        out
    }
}

} // verus!
