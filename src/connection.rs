use vstd::prelude::*;
use vstd::string::*;

verus! {

/// Where and as whom to reach the database, as held in the secret store.
#[derive(Clone, Debug, PartialEq, Eq)]
pub struct DbSecret {
    pub username: String,
    pub password: String,
    pub host: String,
    pub port: i32,
    pub dbname: String,
}

/// The percent-encoding of `s`, as the URL encoder computes it.
pub uninterp spec fn url_encoded(s: Seq<char>) -> Seq<char>;

/// The characters the URL encoder leaves as they are.
pub open spec fn is_unreserved(c: char) -> bool {
    ('0' <= c && c <= '9') || ('A' <= c && c <= 'Z') || ('a' <= c && c <= 'z') || c == '-' || c == '.'
        || c == '_' || c == '~'
}

pub open spec fn hex_digit(d: int) -> char {
    seq!['0', '1', '2', '3', '4', '5', '6', '7', '8', '9', 'A', 'B', 'C', 'D', 'E', 'F'][d]
}

/// One ASCII character, encoded: itself if unreserved, else `%` and two
/// upper-case hex digits.
pub open spec fn encoded_ascii_char(c: char) -> Seq<char> {
    if is_unreserved(c) {
        seq![c]
    } else {
        seq!['%', hex_digit((c as u32) as int / 16), hex_digit((c as u32) as int % 16)]
    }
}

/// The encoding of an ASCII string, character by character.
pub open spec fn encoded_ascii(s: Seq<char>) -> Seq<char>
    decreases s.len(),
{
    if s.len() == 0 {
        Seq::<char>::empty()
    } else {
        encoded_ascii(s.drop_last()) + encoded_ascii_char(s.last())
    }
}

pub open spec fn all_ascii(s: Seq<char>) -> bool {
    forall|i: int| 0 <= i < s.len() ==> (#[trigger] s[i] as u32) < 128
}

/// Relies on urlencoding::encode, which percent-encodes every byte of the
/// UTF-8 text except ASCII letters, digits and `-`, `.`, `_`, `~`, with
/// upper-case hex digits.
#[verifier::external_body]
fn url_encode(s: &str) -> (r: String)
    ensures
        r@ == url_encoded(s@),
        all_ascii(s@) ==> r@ == encoded_ascii(s@),
{
    urlencoding::encode(s).into_owned()
}

pub open spec fn decimal_digit(d: int) -> char {
    seq!['0', '1', '2', '3', '4', '5', '6', '7', '8', '9'][d]
}

/// The decimal digits of `n >= 0`, without leading zeros.
pub open spec fn decimal_digits(n: nat) -> Seq<char>
    decreases n,
{
    if n < 10 {
        seq![decimal_digit(n as int)]
    } else {
        decimal_digits(n / 10).push(decimal_digit((n % 10) as int))
    }
}

/// `n` in decimal, with a leading `-` when negative.
pub open spec fn decimal(n: int) -> Seq<char> {
    if n < 0 {
        seq!['-'] + decimal_digits((-n) as nat)
    } else {
        decimal_digits(n as nat)
    }
}

fn digit_str(d: u64) -> (r: &'static str)
    requires
        d < 10,
    ensures
        r@ == seq![decimal_digit(d as int)],
{
    proof {
        reveal_strlit("0");
        reveal_strlit("1");
        reveal_strlit("2");
        reveal_strlit("3");
        reveal_strlit("4");
        reveal_strlit("5");
        reveal_strlit("6");
        reveal_strlit("7");
        reveal_strlit("8");
        reveal_strlit("9");
    }
    let r = if d == 0 {
        "0"
    } else if d == 1 {
        "1"
    } else if d == 2 {
        "2"
    } else if d == 3 {
        "3"
    } else if d == 4 {
        "4"
    } else if d == 5 {
        "5"
    } else if d == 6 {
        "6"
    } else if d == 7 {
        "7"
    } else if d == 8 {
        "8"
    } else {
        "9"
    };
    assert(r@ =~= seq![decimal_digit(d as int)]);
    r
}

fn append_decimal_digits(s: &mut String, n: u64)
    ensures
        final(s)@ == old(s)@ + decimal_digits(n as nat),
    decreases n,
{
    if n >= 10 {
        append_decimal_digits(s, n / 10);
    }
    s.append(digit_str(n % 10));
    assert(n < 10 ==> n % 10 == n);
}

/// Appends `n` in decimal to `s`.
fn append_decimal(s: &mut String, n: i32)
    ensures
        final(s)@ == old(s)@ + decimal(n as int),
{
    proof {
        reveal_strlit("-");
    }
    if n < 0 {
        s.append("-");
        let magnitude: u64 = (-(n as i64)) as u64;
        append_decimal_digits(s, magnitude);
    } else {
        append_decimal_digits(s, n as u64);
    }
}

/// The PostgreSQL connection URL for `secret`, given its password already
/// percent-encoded, with TLS turned off.
pub fn connection_string_with_password(secret: &DbSecret, encoded_password: &str) -> (r: String)
    ensures
        r@ == "postgres://"@ + secret.username@ + ":"@ + encoded_password@ + "@"@ + secret.host@ + ":"@
            + decimal(secret.port as int) + "/"@ + secret.dbname@ + "?sslmode=disable"@,
{
    let mut s = String::from_str("postgres://");
    s.append(secret.username.as_str());
    s.append(":");
    s.append(encoded_password);
    s.append("@");
    s.append(secret.host.as_str());
    s.append(":");
    append_decimal(&mut s, secret.port);
    s.append("/");
    s.append(secret.dbname.as_str());
    s.append("?sslmode=disable");
    s
}

/// The PostgreSQL connection URL for `secret`, with the password
/// percent-encoded and TLS turned off.
pub fn connection_string(secret: &DbSecret) -> (r: String)
    ensures
        r@ == "postgres://"@ + secret.username@ + ":"@ + url_encoded(secret.password@) + "@"@ + secret.host@
            + ":"@ + decimal(secret.port as int) + "/"@ + secret.dbname@ + "?sslmode=disable"@,
{
    let password = url_encode(secret.password.as_str());
    connection_string_with_password(secret, password.as_str())
}

} // verus!
