//! HTTP methods: which strings are one.

use vstd::prelude::*;

verus! {

/// A character that may stand in an HTTP token: a letter, a digit, or one
/// of ``!#$%&'*+-.^_`|~``.
pub open spec fn is_token_char(c: char) -> bool {
    ||| 'a' <= c <= 'z'
    ||| 'A' <= c <= 'Z'
    ||| '0' <= c <= '9'
    ||| c == '!'
    ||| c == '#'
    ||| c == '$'
    ||| c == '%'
    ||| c == '&'
    ||| c == '\''
    ||| c == '*'
    ||| c == '+'
    ||| c == '-'
    ||| c == '.'
    ||| c == '^'
    ||| c == '_'
    ||| c == '`'
    ||| c == '|'
    ||| c == '~'
}

/// An HTTP method is a token: one character or more, each a token
/// character.
pub open spec fn valid_method(method: Seq<char>) -> bool {
    method.len() > 0 && forall|i: int| 0 <= i < method.len() ==> is_token_char(#[trigger] method[i])
}

/// `Method::from_bytes` on the bytes of `method`: it accepts a text that
/// is not empty and holds token characters only, whatever its length, and
/// rejects every other.
#[verifier::external_body]
pub(crate) fn method_is_valid(method: &str) -> (valid: bool)
    ensures
        valid == valid_method(method@),
{
    hyper::Method::from_bytes(method.as_bytes()).is_ok()
}

} // verus!
