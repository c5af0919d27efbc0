//! Resolving the daemon's loopback endpoint from an optional port override.
//!
//! A present override must be a nonempty decimal string denoting a positive
//! port number; an absent override yields the fixed default port. The host is
//! always the loopback address.

use vstd::prelude::*;

verus! {

/// The port used when no override is present.
pub const DEFAULT_PORT: u16 = 4000;

/// A loopback endpoint; the host is always the loopback address, so only the
/// port varies.
#[derive(Clone, Copy, Debug, PartialEq, Eq)]
pub struct Endpoint {
    pub port: u16,
}

/// A malformed port override: a user configuration error, surfaced before any
/// network or process action.
#[derive(Clone, Copy, Debug, PartialEq, Eq)]
pub enum ConfigError {
    InvalidPortOverride,
}

/// Whether `c` is one of the ten decimal digit characters.
pub open spec fn is_decimal_digit(c: char) -> bool {
    '0' <= c && c <= '9'
}

/// The numeric value of a decimal digit character.
pub open spec fn digit_value(c: char) -> int {
    c as int - '0' as int
}

/// Whether every character of `s` is a decimal digit.
pub open spec fn all_decimal_digits(s: Seq<char>) -> bool {
    forall|i: int| 0 <= i < s.len() ==> is_decimal_digit(#[trigger] s[i])
}

/// The numeric value of a digit string, most significant digit first.
pub open spec fn decimal_value(s: Seq<char>) -> int
    decreases s.len(),
{
    if s.len() == 0 {
        0
    } else {
        decimal_value(s.drop_last()) * 10 + digit_value(s.last())
    }
}

/// A port override is valid when it is a nonempty string of decimal digits
/// denoting a positive number that fits a port.
pub open spec fn valid_port_override(s: Seq<char>) -> bool {
    &&& s.len() > 0
    &&& all_decimal_digits(s)
    &&& 1 <= decimal_value(s) <= u16::MAX
}

proof fn lemma_decimal_value_push(s: Seq<char>, c: char)
    ensures
        decimal_value(s.push(c)) == decimal_value(s) * 10 + digit_value(c),
{
    assert(s.push(c).drop_last() =~= s);
}

proof fn lemma_decimal_value_nonneg(s: Seq<char>)
    requires
        all_decimal_digits(s),
    ensures
        decimal_value(s) >= 0,
    decreases s.len(),
{
    if s.len() > 0 {
        assert(all_decimal_digits(s.drop_last()));
        lemma_decimal_value_nonneg(s.drop_last());
    }
}

proof fn lemma_decimal_value_prefix_le(s: Seq<char>, i: int)
    requires
        all_decimal_digits(s),
        0 <= i <= s.len(),
    ensures
        decimal_value(s.subrange(0, i)) <= decimal_value(s),
    decreases s.len() - i,
{
    if i == s.len() {
        assert(s.subrange(0, i) =~= s);
    } else {
        assert(all_decimal_digits(s.drop_last()));
        assert(s.drop_last().subrange(0, i) =~= s.subrange(0, i));
        lemma_decimal_value_prefix_le(s.drop_last(), i);
        lemma_decimal_value_nonneg(s.drop_last());
    }
}

/// Parses a port override. Returns the denoted port exactly when the string
/// is a nonempty run of decimal digits whose value is a positive port number;
/// anything else is a configuration error.
pub fn parse_port(s: &str) -> (r: Result<u16, ConfigError>)
    ensures
        r is Ok <==> valid_port_override(s@),
        r matches Ok(p) ==> p == decimal_value(s@),
{
    let n = s.unicode_len();
    if n == 0 {
        return Err(ConfigError::InvalidPortOverride);
    }
    let mut acc: u32 = 0;
    let mut i: usize = 0;
    while i < n
        invariant
            0 < n == s@.len(),
            0 <= i <= n,
            all_decimal_digits(s@.subrange(0, i as int)),
            acc == decimal_value(s@.subrange(0, i as int)),
            acc <= u16::MAX,
        decreases n - i,
    {
        let c = s.get_char(i);
        let d = c as u32;
        if d < 48 || d > 57 {
            assert(!is_decimal_digit(s@[i as int]));
            return Err(ConfigError::InvalidPortOverride);
        }
        let next = acc * 10 + (d - 48);
        proof {
            lemma_decimal_value_push(s@.subrange(0, i as int), s@[i as int]);
            assert(s@.subrange(0, i as int + 1) =~= s@.subrange(0, i as int).push(s@[i as int]));
        }
        if next > 65535 {
            proof {
                if valid_port_override(s@) {
                    lemma_decimal_value_prefix_le(s@, i as int + 1);
                }
            }
            return Err(ConfigError::InvalidPortOverride);
        }
        acc = next;
        i += 1;
    }
    proof {
        assert(s@.subrange(0, n as int) =~= s@);
    }
    if acc == 0 {
        return Err(ConfigError::InvalidPortOverride);
    }
    Ok(acc as u16)
}

/// The decimal digit character denoting `d` (meaningful for 0 through 9).
pub open spec fn decimal_digit_char(d: int) -> char {
    if d == 0 {
        '0'
    } else if d == 1 {
        '1'
    } else if d == 2 {
        '2'
    } else if d == 3 {
        '3'
    } else if d == 4 {
        '4'
    } else if d == 5 {
        '5'
    } else if d == 6 {
        '6'
    } else if d == 7 {
        '7'
    } else if d == 8 {
        '8'
    } else {
        '9'
    }
}

/// The decimal representation of `n`, most significant digit first, with no
/// leading zeros (a single digit for values below ten).
pub open spec fn decimal_digits(n: nat) -> Seq<char>
    decreases n,
{
    if n < 10 {
        seq![decimal_digit_char(n as int)]
    } else {
        decimal_digits(n / 10).push(decimal_digit_char((n % 10) as int))
    }
}

proof fn lemma_digit_char_value(d: int)
    requires
        0 <= d <= 9,
    ensures
        is_decimal_digit(decimal_digit_char(d)),
        digit_value(decimal_digit_char(d)) == d,
{
}

/// Formatting a number and reading the digits back are inverse: the printed
/// port denotes the port itself.
pub proof fn lemma_decimal_digits_value(n: nat)
    ensures
        decimal_digits(n).len() > 0,
        all_decimal_digits(decimal_digits(n)),
        decimal_value(decimal_digits(n)) == n,
    decreases n,
{
    if n < 10 {
        let s = decimal_digits(n);
        lemma_digit_char_value(n as int);
        assert(s.drop_last() =~= Seq::<char>::empty());
        assert(s.last() == decimal_digit_char(n as int));
        assert(decimal_value(s) == decimal_value(s.drop_last()) * 10 + digit_value(s.last()));
        assert(decimal_value(s.drop_last()) == 0);
    } else {
        lemma_digit_char_value((n % 10) as int);
        lemma_decimal_digits_value(n / 10);
        lemma_decimal_value_push(decimal_digits(n / 10), decimal_digit_char((n % 10) as int));
        assert(decimal_value(decimal_digits(n)) == (n / 10) * 10 + (n % 10));
        assert(all_decimal_digits(decimal_digits(n))) by {
            let prefix = decimal_digits(n / 10);
            let whole = decimal_digits(n);
            assert(forall|i: int|
                0 <= i < prefix.len() ==> #[trigger] whole[i] == prefix[i]);
        }
        assert(n / 10 * 10 + n % 10 == n) by {
            vstd::arithmetic::div_mod::lemma_fundamental_div_mod(n as int, 10);
        }
    }
}

fn decimal_digit_str(d: u32) -> (r: &'static str)
    requires
        d <= 9,
    ensures
        r@ == seq![decimal_digit_char(d as int)],
{
    proof {
        reveal_strlit("0");
        reveal_strlit("1");
        reveal_strlit("2");
        reveal_strlit("3");
        reveal_strlit("4");
        reveal_strlit("5");
        reveal_strlit("6");
        reveal_strlit("7");
        reveal_strlit("8");
        reveal_strlit("9");
    }
    let r = match d {
        0 => "0",
        1 => "1",
        2 => "2",
        3 => "3",
        4 => "4",
        5 => "5",
        6 => "6",
        7 => "7",
        8 => "8",
        _ => "9",
    };
    proof {
        assert(r@ =~= seq![decimal_digit_char(d as int)]);
    }
    r
}

/// The decimal string for a port number.
pub fn port_decimal_string(n: u16) -> (s: String)
    ensures
        s@ == decimal_digits(n as nat),
    decreases n,
{
    if n < 10 {
        decimal_digit_str(n as u32).to_owned()
    } else {
        let mut s = port_decimal_string(n / 10);
        s.append(decimal_digit_str((n % 10) as u32));
        proof {
            assert(s@ =~= decimal_digits(n as nat));
        }
        s
    }
}

/// The socket address string for an endpoint: the loopback host, a colon, and
/// the decimal port.
pub fn socket_string(e: &Endpoint) -> (s: String)
    ensures
        s@ == "127.0.0.1:"@ + decimal_digits(e.port as nat),
{
    let mut s = "127.0.0.1:".to_owned();
    let port = port_decimal_string(e.port);
    s.append(port.as_str());
    s
}

/// Resolves the endpoint. An absent override yields the default port; a
/// present override must be a valid positive port number and determines the
/// port exactly, with a malformed one rejected as a configuration error.
pub fn resolve(override_value: Option<&str>) -> (r: Result<Endpoint, ConfigError>)
    ensures
        override_value is None ==> (r matches Ok(e) && e.port == DEFAULT_PORT),
        override_value matches Some(s) ==> {
            &&& r is Ok <==> valid_port_override(s@)
            &&& (r matches Ok(e) ==> e.port == decimal_value(s@))
        },
{
    match override_value {
        None => Ok(Endpoint { port: DEFAULT_PORT }),
        Some(s) => match parse_port(s) {
            Ok(p) => Ok(Endpoint { port: p }),
            Err(e) => Err(e),
        },
    }
}

} // verus!
