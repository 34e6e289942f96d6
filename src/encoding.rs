use vstd::prelude::*;
use vstd::string::*;

verus! {

/// The gzip stream that flate2 writes for `data` at the default compression
/// level; nothing when the encoder reports a failure.
pub uninterp spec fn flate2_gzip(data: Seq<u8>) -> Option<Seq<u8>>;

/// Relies on flate2's `GzEncoder` over a `Vec<u8>` at the default level:
/// `write_all` of the data, then `finish` to end the stream.
#[verifier::external_body]
fn gzip_with_flate2(data: &[u8]) -> (r: Option<Vec<u8>>)
    ensures
        match flate2_gzip(data@) {
            Some(g) => r is Some && r->Some_0@ == g,
            None => r is None,
        },
{
    let mut encoder = flate2::write::GzEncoder::new(Vec::new(), flate2::Compression::default());
    match std::io::Write::write_all(&mut encoder, data) {
        Ok(()) => encoder.finish().ok(),
        Err(_) => None,
    }
}

/// Gzip-encodes `data`, or gives nothing when the encoder fails.
pub fn gzip_encode(data: &[u8]) -> (r: Option<Vec<u8>>)
    ensures
        match flate2_gzip(data@) {
            Some(g) => r is Some && r->Some_0@ == g,
            None => r is None,
        },
{
    gzip_with_flate2(data)
}

/// The decimal digits.
pub open spec fn digits() -> Seq<char> {
    "0123456789"@
}

/// `n` written in decimal, without leading zeros.
pub open spec fn decimal_text(n: nat) -> Seq<char>
    decreases n,
{
    if n < 10 {
        digits().subrange(n as int, n as int + 1)
    } else {
        decimal_text(n / 10) + digits().subrange((n % 10) as int, (n % 10) as int + 1)
    }
}

/// Appends `n` in decimal to `s`.
pub fn append_decimal(s: &mut String, n: usize)
    ensures
        final(s)@ == old(s)@ + decimal_text(n as nat),
    decreases n,
{
    if n >= 10 {
        append_decimal(s, n / 10);
    }
    let d: usize = n % 10;
    let all = "0123456789";
    proof {
        reveal_strlit("0123456789");
    }
    s.append(all.substring_char(d, d + 1));
    assert(final(s)@ =~= old(s)@ + decimal_text(n as nat));
}

} // verus!
