//! Parsing of the configured HUD colour (`#RRGGBB`) into its channels.

use vstd::prelude::*;
use vstd::string::*;
use vstd::utf8::is_continuation_byte;

verus! {

/// `b` with every leading `#` removed (`trim_start_matches('#')`).
pub open spec fn trim_hashes(b: Seq<u8>) -> Seq<u8>
    decreases b.len(),
{
    if b.len() > 0 && b[0] == 35u8 {
        trim_hashes(b.drop_first())
    } else {
        b
    }
}

/// The value of one hexadecimal digit (either case).
pub open spec fn hex_digit_value(c: u8) -> Option<u8> {
    if 48 <= c <= 57 {
        Some((c - 48) as u8)
    } else if 97 <= c <= 102 {
        Some((c - 87) as u8)
    } else if 65 <= c <= 70 {
        Some((c - 55) as u8)
    } else {
        None
    }
}

/// `u8::from_str_radix(s, 16)` on a two-byte `s`: two hex digits, or a `+`
/// sign and one hex digit; anything else is an error (`None`).
pub open spec fn parse_hex_pair(a: u8, b: u8) -> Option<u8> {
    if a == 43u8 {
        hex_digit_value(b)
    } else {
        match (hex_digit_value(a), hex_digit_value(b)) {
            (Some(x), Some(y)) => Some((16 * x + y) as u8),
            _ => None,
        }
    }
}

/// The parsed value, or `default` when the pair does not parse.
pub open spec fn pair_or(a: u8, b: u8, default: u8) -> u8 {
    match parse_hex_pair(a, b) {
        Some(v) => v,
        None => default,
    }
}

/// The colour channels of a hex colour given as UTF-8 bytes: `None` unless
/// six bytes remain after the leading `#`s; otherwise each two-byte pair in
/// turn, a channel that does not parse falling back to 0, 255 and 204 for
/// red, green and blue.
pub open spec fn hex_channels(bytes: Seq<u8>) -> Option<(u8, u8, u8)> {
    let t = trim_hashes(bytes);
    if t.len() != 6 {
        None
    } else {
        Some((pair_or(t[0], t[1], 0), pair_or(t[2], t[3], 255), pair_or(t[4], t[5], 204)))
    }
}

/// Slicing the six remaining bytes into pairs cuts no character in two.
pub open spec fn pairs_on_char_boundaries(bytes: Seq<u8>) -> bool {
    let t = trim_hashes(bytes);
    t.len() == 6 ==> !is_continuation_byte(t[2]) && !is_continuation_byte(t[4])
}

fn digit_value(c: u8) -> (v: Option<u8>)
    ensures
        v == hex_digit_value(c),
{
    if 48 <= c && c <= 57 {
        Some(c - 48)
    } else if 97 <= c && c <= 102 {
        Some(c - 87)
    } else if 65 <= c && c <= 70 {
        Some(c - 55)
    } else {
        None
    }
}

fn pair_value(a: u8, b: u8, default: u8) -> (v: u8)
    ensures
        v == pair_or(a, b, default),
{
    if a == 43 {
        match digit_value(b) {
            Some(y) => y,
            None => default,
        }
    } else {
        match (digit_value(a), digit_value(b)) {
            (Some(x), Some(y)) => 16 * x + y,
            _ => default,
        }
    }
}

proof fn lemma_trim_hashes_skip(b: Seq<u8>, k: int)
    requires
        0 <= k <= b.len(),
        forall|j: int| 0 <= j < k ==> b[j] == 35u8,
    ensures
        trim_hashes(b) == trim_hashes(b.skip(k)),
    decreases k,
{
    if k > 0 {
        assert(b.drop_first().skip(k - 1) =~= b.skip(k));
        lemma_trim_hashes_skip(b.drop_first(), k - 1);
    } else {
        assert(b.skip(0) =~= b);
    }
}

/// The red, green and blue channels of a `#RRGGBB` colour (any number of
/// leading `#`), or `None` when it does not have six bytes after them.
pub fn hex_color_channels(hex: &str) -> (c: Option<(u8, u8, u8)>)
    requires
        pairs_on_char_boundaries(hex.spec_bytes()),
    ensures
        c == hex_channels(hex.spec_bytes()),
{
    let b = hex.as_bytes();
    let n = b.len();
    let mut k: usize = 0;
    while k < n && b[k] == 35
        invariant
            n == b@.len(),
            k <= n,
            forall|j: int| 0 <= j < k ==> b@[j] == 35u8,
        decreases n - k,
    {
        k = k + 1;
    }
    proof {
        lemma_trim_hashes_skip(b@, k as int);
        if k < n {
            assert(b@.skip(k as int)[0] == b@[k as int]);
        }
        assert(trim_hashes(b@.skip(k as int)) == b@.skip(k as int));
    }
    if n - k != 6 {
        return None;
    }
    let r = pair_value(b[k], b[k + 1], 0);
    let g = pair_value(b[k + 2], b[k + 3], 255);
    let bl = pair_value(b[k + 4], b[k + 5], 204);
    Some((r, g, bl))
}

/// Leading `#`s do not change the colour: `#RRGGBB` and `RRGGBB` parse
/// alike.
pub proof fn law_leading_hash_ignored(bytes: Seq<u8>)
    ensures
        hex_channels(seq![35u8] + bytes) == hex_channels(bytes),
        pairs_on_char_boundaries(seq![35u8] + bytes) == pairs_on_char_boundaries(bytes),
{
    assert((seq![35u8] + bytes).drop_first() =~= bytes);
}

} // verus!
