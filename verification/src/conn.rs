//! Builds the relational source's connection URL from its configured
//! parts. The password is percent-encoded, so that a credential holding
//! reserved characters survives embedding in the URL.

use vstd::prelude::*;
use vstd::string::StringExecFns;

verus! {

/// What `urlencoding::encode` returns for a given string: its
/// percent-encoded form. A function of the input characters alone.
pub uninterp spec fn url_encoded(s: Seq<char>) -> Seq<char>;

/// Relies on `urlencoding::encode`: percent-encodes every byte of the
/// UTF-8 form except ASCII alphanumerics and `-`, `_`, `.`, `~`. The
/// result depends on the input characters alone; an empty input stays
/// empty.
#[verifier::external_body]
fn encode_component(s: &str) -> (r: String)
    ensures
        r@ == url_encoded(s@),
        s@.len() == 0 ==> r@.len() == 0,
{
    urlencoding::encode(s).into_owned()
}

/// The character a decimal digit prints as.
pub open spec fn digit_char(d: nat) -> char {
    if d == 0 {
        '0'
    } else if d == 1 {
        '1'
    } else if d == 2 {
        '2'
    } else if d == 3 {
        '3'
    } else if d == 4 {
        '4'
    } else if d == 5 {
        '5'
    } else if d == 6 {
        '6'
    } else if d == 7 {
        '7'
    } else if d == 8 {
        '8'
    } else {
        '9'
    }
}

/// The decimal digits of a number, most significant first, with no
/// leading zero except for zero itself.
pub open spec fn spec_decimal(n: nat) -> Seq<char>
    decreases n,
{
    if n < 10 {
        seq![digit_char(n)]
    } else {
        spec_decimal(n / 10).push(digit_char(n % 10))
    }
}

/// Appends the decimal form of a port number.
fn push_decimal(s: &mut String, n: u16)
    ensures
        final(s)@ == old(s)@ + spec_decimal(n as nat),
    decreases n,
{
    if n >= 10 {
        push_decimal(s, n / 10);
    }
    let d: u16 = n % 10;
    let digit: &str = if d == 0 {
        "0"
    } else if d == 1 {
        "1"
    } else if d == 2 {
        "2"
    } else if d == 3 {
        "3"
    } else if d == 4 {
        "4"
    } else if d == 5 {
        "5"
    } else if d == 6 {
        "6"
    } else if d == 7 {
        "7"
    } else if d == 8 {
        "8"
    } else {
        "9"
    };
    proof {
        reveal_strlit("0");
        reveal_strlit("1");
        reveal_strlit("2");
        reveal_strlit("3");
        reveal_strlit("4");
        reveal_strlit("5");
        reveal_strlit("6");
        reveal_strlit("7");
        reveal_strlit("8");
        reveal_strlit("9");
        assert(digit@ =~= seq![digit_char((n % 10) as nat)]);
    }
    s.append(digit);
    proof {
        if n < 10 {
            assert(spec_decimal(n as nat) =~= seq![digit_char(n as nat)]);
            assert((n % 10) as nat == n as nat);
        } else {
            assert(spec_decimal(n as nat) =~= spec_decimal((n / 10) as nat).push(
                digit_char((n % 10) as nat),
            ));
        }
        assert(s@ =~= old(s)@ + spec_decimal(n as nat));
    }
}

/// The connection URL assembled from the configured parts, with the
/// password percent-encoded.
pub open spec fn spec_connection_url(
    user: Seq<char>,
    pass: Seq<char>,
    host: Seq<char>,
    port: u16,
    db: Seq<char>,
) -> Seq<char> {
    "postgres://"@ + user + ":"@ + url_encoded(pass) + "@"@ + host + ":"@ + spec_decimal(
        port as nat,
    ) + "/"@ + db
}

/// Builds the relational source's connection URL. Only the password is
/// encoded; the remaining parts are embedded as configured.
pub fn connection_url(user: &str, pass: &str, host: &str, port: u16, db: &str) -> (r: String)
    ensures
        r@ == spec_connection_url(user@, pass@, host@, port, db@),
{
    let mut s = String::new();
    s.append("postgres://");
    s.append(user);
    s.append(":");
    let encoded = encode_component(pass);
    s.append(encoded.as_str());
    s.append("@");
    s.append(host);
    s.append(":");
    push_decimal(&mut s, port);
    s.append("/");
    s.append(db);
    proof {
        assert(s@ =~= spec_connection_url(user@, pass@, host@, port, db@));
    }
    s
}

} // verus!
