//! Nonce generation, hashing and log-line formatting.

use sha2::Digest;
use vstd::prelude::*;
use vstd::string::*;

verus! {

/// The hexadecimal digit for a value below sixteen, lower case.
pub open spec fn low_hex_digit(n: int) -> char {
    if n == 0 {
        '0'
    } else if n == 1 {
        '1'
    } else if n == 2 {
        '2'
    } else if n == 3 {
        '3'
    } else if n == 4 {
        '4'
    } else if n == 5 {
        '5'
    } else if n == 6 {
        '6'
    } else if n == 7 {
        '7'
    } else if n == 8 {
        '8'
    } else if n == 9 {
        '9'
    } else if n == 10 {
        'a'
    } else if n == 11 {
        'b'
    } else if n == 12 {
        'c'
    } else if n == 13 {
        'd'
    } else if n == 14 {
        'e'
    } else {
        'f'
    }
}

/// The lower-case hexadecimal rendering of a byte string, two digits per byte.
pub open spec fn hex_of_bytes(bytes: Seq<u8>) -> Seq<char>
    decreases bytes.len(),
{
    if bytes.len() == 0 {
        Seq::empty()
    } else {
        hex_of_bytes(bytes.drop_last()) + seq![
            low_hex_digit((bytes.last() / 16) as int),
            low_hex_digit((bytes.last() % 16) as int),
        ]
    }
}

pub(crate) fn hex_digit_str(n: usize) -> (r: &'static str)
    requires
        n < 16,
    ensures
        r@.len() == 1,
        r@[0] == low_hex_digit(n as int),
{
    let table = "0123456789abcdef";
    proof {
        reveal_strlit("0123456789abcdef");
    }
    table.substring_char(n, n + 1)
}

/// Renders a byte string as lower-case hexadecimal, two digits per byte.
pub fn bytes_to_hex(bytes: &Vec<u8>) -> (r: String)
    ensures
        r@ == hex_of_bytes(bytes@),
{
    let mut r = String::new();
    let mut i: usize = 0;
    while i < bytes.len()
        invariant
            i <= bytes@.len(),
            r@ == hex_of_bytes(bytes@.subrange(0, i as int)),
        decreases bytes@.len() - i,
    {
        let b = bytes[i];
        let hi = hex_digit_str((b / 16) as usize);
        let lo = hex_digit_str((b % 16) as usize);
        r.append(hi);
        r.append(lo);
        proof {
            let pre = bytes@.subrange(0, i + 1);
            assert(pre.drop_last() =~= bytes@.subrange(0, i as int));
            assert(pre.last() == bytes@[i as int]);
            assert(r@ =~= hex_of_bytes(pre));
        }
        i = i + 1;
    }
    proof {
        assert(bytes@.subrange(0, bytes@.len() as int) =~= bytes@);
    }
    r
}

/// The digest bytes that SHA-256 yields for the UTF-8 encoding of a string.
pub uninterp spec fn sha256_of(s: Seq<char>) -> Seq<u8>;

/// Relies on sha2::Sha256::digest: the 32-byte SHA-256 digest of the input,
/// a function of the input alone.
#[verifier::external_body]
fn sha256_bytes(data: &str) -> (r: Vec<u8>)
    ensures
        r@ == sha256_of(data@),
        r@.len() == 32,
{
    sha2::Sha256::digest(data).to_vec()
}

/// What `generate_hash` returns: the digest of the input, rendered in hex.
pub open spec fn spec_generate_hash(s: Seq<char>) -> Seq<char> {
    hex_of_bytes(sha256_of(s))
}

/// The SHA-256 digest of a string, as 64 lower-case hexadecimal characters.
pub fn generate_hash(data: &str) -> (r: String)
    ensures
        r@ == spec_generate_hash(data@),
{
    let bytes = sha256_bytes(data);
    bytes_to_hex(&bytes)
}

/// Whether a character belongs to the alphanumeric nonce alphabet.
pub open spec fn is_nonce_char(c: char) -> bool {
    ||| 'a' as u32 <= c as u32 && c as u32 <= 'z' as u32
    ||| 'A' as u32 <= c as u32 && c as u32 <= 'Z' as u32
    ||| '0' as u32 <= c as u32 && c as u32 <= '9' as u32
}

/// Relies on rand::random_range: a draw from the half-open range below `n`.
/// The draw panics on an empty range, which the precondition rules out.
#[verifier::external_body]
fn random_below(n: usize) -> (r: usize)
    requires
        0 < n,
    ensures
        r < n,
{
    rand::random_range(0..n)
}

/// A fresh random string of the given length, drawn from the fixed
/// alphanumeric alphabet. Consecutive calls share no state beyond the
/// random number generator, so repeats stay possible.
pub fn generate_nonce(length: usize) -> (r: String)
    ensures
        r@.len() == length,
        forall|i: int| 0 <= i < r@.len() ==> is_nonce_char(#[trigger] r@[i]),
{
    let charset = "abcdefghijklmnopqrstuvwxyzABCDEFGHIJKLMNOPQRSTUVWXYZ0123456789";
    proof {
        reveal_strlit("abcdefghijklmnopqrstuvwxyzABCDEFGHIJKLMNOPQRSTUVWXYZ0123456789");
        assert(forall|k: int| 0 <= k < 62 ==> is_nonce_char(#[trigger] charset@[k]));
    }
    let mut r = String::new();
    let mut i: usize = 0;
    while i < length
        invariant
            i <= length,
            r@.len() == i,
            forall|j: int| 0 <= j < r@.len() ==> is_nonce_char(#[trigger] r@[j]),
            charset@.len() == 62,
            forall|k: int| 0 <= k < 62 ==> is_nonce_char(#[trigger] charset@[k]),
        decreases length - i,
    {
        let idx = random_below(62);
        let ch = charset.substring_char(idx, idx + 1);
        r.append(ch);
        i = i + 1;
    }
    r
}

/// What a stamped log line holds: the timestamp, the name, and the message.
pub open spec fn log_line(t: Seq<char>, name: Seq<char>, msg: Seq<char>) -> Seq<char> {
    "["@ + t + "] ["@ + name + "]: "@ + msg
}

/// Relies on chrono::Local::now: the current local time, rendered as a
/// calendar date and a time of day. The result depends on the clock.
#[verifier::external_body]
pub fn now() -> String {
    chrono::Local::now().format("%F %T").to_string()
}

/// Builds the timestamped line that is reported at the ordinary level.
pub fn format_println(name: &str, msg: &str) -> (r: String)
    ensures
        exists|t: Seq<char>| r@ == log_line(t, name@, msg@),
{
    let stamp = now();
    let mut r = String::from_str("[");
    r.append(stamp.as_str());
    r.append("] [");
    r.append(name);
    r.append("]: ");
    r.append(msg);
    proof {
        assert(r@ == log_line(stamp@, name@, msg@));
    }
    r
}

/// Builds the timestamped line that is reported at the error level.
pub fn format_error(name: &str, msg: &str) -> (r: String)
    ensures
        exists|t: Seq<char>| r@ == log_line(t, name@, msg@),
{
    let stamp = now();
    let mut r = String::from_str("[");
    r.append(stamp.as_str());
    r.append("] [");
    r.append(name);
    r.append("]: ");
    r.append(msg);
    proof {
        assert(r@ == log_line(stamp@, name@, msg@));
    }
    r
}

} // verus!
