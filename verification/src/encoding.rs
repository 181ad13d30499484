//! Base64 data URLs and decimal numbers in text.
use vstd::prelude::*;
use base64::Engine;

verus! {

/// The character for the 6-bit value `v` in the standard base64 alphabet
/// (RFC 4648): `A`–`Z`, `a`–`z`, `0`–`9`, `+`, `/`.
pub open spec fn b64_char(v: int) -> char {
    if v < 26 {
        (65 + v) as char
    } else if v < 52 {
        (97 + (v - 26)) as char
    } else if v < 62 {
        (48 + (v - 52)) as char
    } else if v == 62 {
        '+'
    } else {
        '/'
    }
}

/// Standard padded base64 (RFC 4648): each group of three bytes, read as a
/// 24-bit number, gives four characters of six bits each; a last group of
/// one or two bytes is padded with zero bits and completed with `=`.
pub open spec fn base64_standard(bytes: Seq<u8>) -> Seq<char>
    decreases bytes.len(),
{
    if bytes.len() == 0 {
        Seq::empty()
    } else if bytes.len() == 1 {
        let n = bytes[0] as int;
        seq![b64_char(n / 4), b64_char((n % 4) * 16), '=', '=']
    } else if bytes.len() == 2 {
        let n = bytes[0] as int * 256 + bytes[1] as int;
        seq![b64_char(n / 1024), b64_char((n / 16) % 64), b64_char((n % 16) * 4), '=']
    } else {
        let n = bytes[0] as int * 65536 + bytes[1] as int * 256 + bytes[2] as int;
        seq![b64_char(n / 262144), b64_char((n / 4096) % 64), b64_char((n / 64) % 64), b64_char(n % 64)]
            + base64_standard(bytes.skip(3))
    }
}

/// Calls `base64::engine::general_purpose::STANDARD.encode` (the standard
/// alphabet with `=` padding), which returns the padded base64 text of the
/// bytes.  Its one panic, an encoded length past `usize::MAX`, cannot happen
/// for a slice of bytes, which holds at most `isize::MAX` of them.
#[verifier::external_body]
fn base64_encode(bytes: &[u8]) -> (r: String)
    ensures
        r@ == base64_standard(bytes@),
{
    base64::engine::general_purpose::STANDARD.encode(bytes)
}

/// A PNG image in base64, and the `data:` URL that holds it.
pub fn png_encodings(png: &[u8]) -> (r: (String, String))
    ensures
        r.0@ == base64_standard(png@),
        r.1@ == "data:image/png;base64,"@ + base64_standard(png@),
{
    let b64 = base64_encode(png);
    let url = String::from_str("data:image/png;base64,").concat(b64.as_str());
    (b64, url)
}

/// A `data:` URL for MPEG audio.
pub fn mp3_data_url(audio: &[u8]) -> (r: String)
    ensures
        r@ == "data:audio/mpeg;base64,"@ + base64_standard(audio@),
{
    let b64 = base64_encode(audio);
    String::from_str("data:audio/mpeg;base64,").concat(b64.as_str())
}

/// The decimal digit `d`.
pub open spec fn digit_text(d: nat) -> Seq<char> {
    if d == 0 {
        "0"@
    } else if d == 1 {
        "1"@
    } else if d == 2 {
        "2"@
    } else if d == 3 {
        "3"@
    } else if d == 4 {
        "4"@
    } else if d == 5 {
        "5"@
    } else if d == 6 {
        "6"@
    } else if d == 7 {
        "7"@
    } else if d == 8 {
        "8"@
    } else {
        "9"@
    }
}

/// `n` in decimal, without leading zeros (as `Display` prints an unsigned integer).
pub open spec fn decimal_text(n: nat) -> Seq<char>
    decreases n,
{
    if n < 10 {
        digit_text(n)
    } else {
        decimal_text(n / 10) + digit_text(n % 10)
    }
}

fn digit_str(d: u64) -> (r: &'static str)
    requires
        d < 10,
    ensures
        r@ == digit_text(d as nat),
{
    if d == 0 {
        "0"
    } else if d == 1 {
        "1"
    } else if d == 2 {
        "2"
    } else if d == 3 {
        "3"
    } else if d == 4 {
        "4"
    } else if d == 5 {
        "5"
    } else if d == 6 {
        "6"
    } else if d == 7 {
        "7"
    } else if d == 8 {
        "8"
    } else {
        "9"
    }
}

/// `n` in decimal.
pub fn decimal(n: u64) -> (r: String)
    ensures
        r@ == decimal_text(n as nat),
    decreases n,
{
    if n < 10 {
        String::from_str(digit_str(n))
    } else {
        let mut s = decimal(n / 10);
        s.append(digit_str(n % 10));
        s
    }
}

/// The address at which the vision service serves its latest summary.
pub fn vision_latest_url(port: u16) -> (r: String)
    ensures
        r@ == "http://127.0.0.1:"@ + decimal_text(port as nat) + "/latest"@,
{
    String::from_str("http://127.0.0.1:").concat(decimal(port as u64).as_str()).concat("/latest")
}

/// The name given to the `counter`-th WebSocket client.
pub fn client_id(counter: u64) -> (r: String)
    ensures
        r@ == "client_"@ + decimal_text(counter as nat),
{
    String::from_str("client_").concat(decimal(counter).as_str())
}

} // verus!
