use vstd::prelude::*;

use crate::errors::Error;

verus! {

/// A character the `http` crate accepts in a header name: the bytes whose
/// entry in its `HEADER_CHARS` table is nonzero. All of them are ASCII, so a
/// name containing any character outside this set (in particular any
/// non-ASCII character) is rejected.
pub open spec fn header_name_char_ok(c: char) -> bool {
    ||| c == '!'
    ||| c == '"'
    ||| c == '#'
    ||| c == '$'
    ||| c == '%'
    ||| c == '&'
    ||| c == '\''
    ||| c == '*'
    ||| c == '+'
    ||| c == '-'
    ||| c == '.'
    ||| ('0' as u32 <= c as u32 && c as u32 <= '9' as u32)
    ||| c == '^'
    ||| c == '_'
    ||| c == '`'
    ||| ('a' as u32 <= c as u32 && c as u32 <= 'z' as u32)
    ||| ('A' as u32 <= c as u32 && c as u32 <= 'Z' as u32)
    ||| c == '|'
    ||| c == '~'
}

/// A valid header name: nonempty, at most 65535 characters, every character
/// in the accepted set. Since all accepted characters are ASCII, character
/// count and encoded byte count agree on every valid name.
pub open spec fn valid_header_name(s: Seq<char>) -> bool {
    &&& 1 <= s.len() <= 0xffff
    &&& forall|i: int| 0 <= i < s.len() ==> header_name_char_ok(#[trigger] s[i])
}

/// A character the `http` crate accepts in a header value: horizontal tab,
/// any visible ASCII character or space, or any non-ASCII character (whose
/// UTF-8 encoding uses only bytes of 128 and above, all of which the crate
/// accepts).
pub open spec fn header_value_char_ok(c: char) -> bool {
    ||| c == '\t'
    ||| (' ' as u32 <= c as u32 && c as u32 <= '~' as u32)
    ||| c as u32 >= 128
}

/// A valid header value: every character accepted. The empty value is valid.
pub open spec fn valid_header_value(s: Seq<char>) -> bool {
    forall|i: int| 0 <= i < s.len() ==> header_value_char_ok(#[trigger] s[i])
}

/// Relies on `http::HeaderName::from_bytes`: a name parses exactly when it is
/// nonempty, no longer than the crate's name limit of 65535 bytes, and every
/// byte has a nonzero entry in its `HEADER_CHARS` table — the set
/// `header_name_char_ok` spells out.
#[verifier::external_body]
pub(crate) fn header_name_ok(s: &str) -> (r: bool)
    ensures
        r == valid_header_name(s@),
{
    http::HeaderName::from_bytes(s.as_bytes()).is_ok()
}

/// Relies on `http::HeaderValue::from_str`: a value parses exactly when every
/// byte `b` of its encoding satisfies `b >= 32 && b != 127 || b == b'\t'` —
/// at character level, the set `header_value_char_ok` spells out.
#[verifier::external_body]
pub(crate) fn header_value_ok(s: &str) -> (r: bool)
    ensures
        r == valid_header_value(s@),
{
    http::HeaderValue::from_str(s).is_ok()
}

/// One header entry: a validated name with its validated value, as supplied
/// by the caller. A `HeaderPair` can only be built out of text both
/// validators accept, so a finalized request never carries a malformed
/// header.
#[derive(Debug)]
pub struct HeaderPair {
    name: String,
    value: String,
}

impl View for HeaderPair {
    type V = (Seq<char>, Seq<char>);

    closed spec fn view(&self) -> (Seq<char>, Seq<char>) {
        (self.name@, self.value@)
    }
}

impl HeaderPair {
    #[verifier::type_invariant]
    spec fn wf(self) -> bool {
        valid_header_name(self.name@) && valid_header_value(self.value@)
    }

    /// Validate a name and a value; the pair is built exactly when both pass.
    pub fn new(name: &str, value: &str) -> (r: Result<HeaderPair, Error>)
        ensures
            match r {
                Ok(p) => valid_header_name(name@) && valid_header_value(value@) && p@ == (
                name@,
                value@,
                ),
                Err(e) => !(valid_header_name(name@) && valid_header_value(value@)) && e
                    == Error::HeaderConversion,
            },
    {
        if header_name_ok(name) && header_value_ok(value) {
            Ok(HeaderPair { name: name.to_owned(), value: value.to_owned() })
        } else {
            Err(Error::HeaderConversion)
        }
    }

    pub fn name(&self) -> (r: &str)
        ensures
            r@ == self@.0,
    {
        self.name.as_str()
    }

    pub fn value(&self) -> (r: &str)
        ensures
            r@ == self@.1,
    {
        self.value.as_str()
    }
}

/// The name of the identifying header every finalized request carries.
pub open spec fn user_agent_name() -> Seq<char> {
    "user-agent"@
}

/// The fixed library identifier sent as the identifying header's value on
/// every request. Changing it is a compatibility-visible change for any
/// server that inspects it.
pub open spec fn user_agent_value() -> Seq<char> {
    "fluvio-mini-http/0.1"@
}

/// The identifying header as a pair, the form finalization appends it in.
pub open spec fn user_agent_header() -> (Seq<char>, Seq<char>) {
    (user_agent_name(), user_agent_value())
}

/// The identifying header's name and value are themselves valid.
pub proof fn lemma_user_agent_header_valid()
    ensures
        valid_header_name(user_agent_name()),
        valid_header_value(user_agent_value()),
{
    reveal_strlit("user-agent");
    reveal_strlit("fluvio-mini-http/0.1");
    assert forall|i: int| 0 <= i < user_agent_name().len() implies header_name_char_ok(
        #[trigger] user_agent_name()[i],
    ) by {
        let s = user_agent_name();
        assert(header_name_char_ok(s[0]));
        assert(header_name_char_ok(s[1]));
        assert(header_name_char_ok(s[2]));
        assert(header_name_char_ok(s[3]));
        assert(header_name_char_ok(s[4]));
        assert(header_name_char_ok(s[5]));
        assert(header_name_char_ok(s[6]));
        assert(header_name_char_ok(s[7]));
        assert(header_name_char_ok(s[8]));
        assert(header_name_char_ok(s[9]));
    }
    assert forall|i: int| 0 <= i < user_agent_value().len() implies header_value_char_ok(
        #[trigger] user_agent_value()[i],
    ) by {
        let s = user_agent_value();
        assert(forall|j: int| 0 <= j < s.len() ==> ' ' as u32 <= #[trigger] s[j] as u32 && s[j]
            as u32 <= '~' as u32);
    }
}

/// Build the identifying header pair that finalization appends.
pub fn user_agent_pair() -> (r: HeaderPair)
    ensures
        r@ == user_agent_header(),
{
    proof {
        lemma_user_agent_header_valid();
    }
    let name: String = "user-agent".to_owned();
    let value: String = "fluvio-mini-http/0.1".to_owned();
    HeaderPair { name, value }
}

} // verus!
