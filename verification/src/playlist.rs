//! The playlist: an ordered list of song paths queued for future playback,
//! distinct from the live playback queue.
//!
//! Songs enter at the tail, leave by their displayed index, and are listed
//! with those indices. The index the user types for `delete` arrives as a
//! line of text and is read here as a plain decimal number.

use vstd::prelude::*;
use vstd::string::StringSliceAdditionalSpecFns;

verus! {

/// Appends a song's path at the tail of the playlist.
pub fn add_to_playlist(song: String, shared_playlist: &mut Vec<String>)
    ensures
        final(shared_playlist)@ == old(shared_playlist)@.push(song),
{
    shared_playlist.push(song);
}

/// Removes the song at the given displayed index and hands it back; an
/// index past the end removes nothing.
pub fn remove_from_playlist(shared_playlist: &mut Vec<String>, index: usize) -> (removed: Option<
    String,
>)
    ensures
        index < old(shared_playlist)@.len() ==> removed == Some(
            old(shared_playlist)@[index as int],
        ) && final(shared_playlist)@ == old(shared_playlist)@.remove(index as int),
        index >= old(shared_playlist)@.len() ==> removed is None && final(shared_playlist)@ == old(
            shared_playlist,
        )@,
{
    if index < shared_playlist.len() {
        Some(shared_playlist.remove(index))
    } else {
        None
    }
}

/// The playlist as displayed: every song paired with the index it is
/// removed by, in playlist order.
pub fn list_songs(shared_playlist: &Vec<String>) -> (listing: Vec<(usize, String)>)
    ensures
        listing@.len() == shared_playlist@.len(),
        forall|i: int|
            0 <= i < listing@.len() ==> #[trigger] listing@[i].0 == i && listing@[i].1
                == shared_playlist@[i],
{
    let mut listing: Vec<(usize, String)> = Vec::new();
    let mut i: usize = 0;
    while i < shared_playlist.len()
        invariant
            i <= shared_playlist@.len(),
            listing@.len() == i,
            forall|j: int|
                0 <= j < i ==> #[trigger] listing@[j].0 == j && listing@[j].1
                    == shared_playlist@[j],
        decreases shared_playlist@.len() - i,
    {
        let song: String = shared_playlist[i].clone();
        listing.push((i, song));
        i = i + 1;
    }
    listing
}

/// Whether a byte is the character of a decimal digit.
pub open spec fn is_digit_spec(b: u8) -> bool {
    48 <= b <= 57
}

/// Whether a byte string is a well-formed index: at least one byte, all of
/// them decimal digits.
pub open spec fn all_digits_spec(s: Seq<u8>) -> bool {
    s.len() > 0 && forall|i: int| 0 <= i < s.len() ==> is_digit_spec(#[trigger] s[i])
}

/// The number a string of decimal digits denotes, most significant digit
/// first.
pub open spec fn decimal_value_spec(s: Seq<u8>) -> int
    decreases s.len(),
{
    if s.len() == 0 {
        0
    } else {
        decimal_value_spec(s.drop_last()) * 10 + (s.last() - 48)
    }
}

/// A string of digits denotes a number of zero or more.
proof fn lemma_decimal_value_nonneg(s: Seq<u8>)
    requires
        forall|i: int| 0 <= i < s.len() ==> is_digit_spec(#[trigger] s[i]),
    ensures
        decimal_value_spec(s) >= 0,
    decreases s.len(),
{
    if s.len() > 0 {
        lemma_decimal_value_nonneg(s.drop_last());
    }
}

/// Dropping digits from the tail of a digit string never makes the number
/// larger.
proof fn lemma_decimal_value_prefix_le(s: Seq<u8>, k: int)
    requires
        0 <= k <= s.len(),
        forall|i: int| 0 <= i < s.len() ==> is_digit_spec(#[trigger] s[i]),
    ensures
        decimal_value_spec(s.take(k)) <= decimal_value_spec(s),
    decreases s.len() - k,
{
    if k == s.len() {
        assert(s.take(k) =~= s);
    } else {
        assert(s.take(k + 1).drop_last() =~= s.take(k));
        assert(forall|i: int|
            0 <= i < s.take(k).len() ==> is_digit_spec(#[trigger] s.take(k)[i]));
        lemma_decimal_value_nonneg(s.take(k));
        lemma_decimal_value_prefix_le(s, k + 1);
    }
}

/// Reads the decimal index a `delete` command names. Some exactly when the
/// line is nothing but decimal digits denoting a number that fits the
/// machine's index type; anything else — an empty line, a stray character,
/// a number too large — reads as nothing.
pub fn parse_index(s: &str) -> (r: Option<usize>)
    ensures
        r is Some <==> all_digits_spec(s.spec_bytes()) && decimal_value_spec(s.spec_bytes())
            <= usize::MAX,
        r is Some ==> r->0 == decimal_value_spec(s.spec_bytes()),
{
    let bytes: &[u8] = s.as_bytes();
    if bytes.len() == 0 {
        return None;
    }
    let ghost sb: Seq<u8> = s.spec_bytes();
    let mut acc: usize = 0;
    let mut i: usize = 0;
    while i < bytes.len()
        invariant
            sb == s.spec_bytes(),
            bytes@ == sb,
            sb.len() > 0,
            i <= sb.len(),
            forall|j: int| 0 <= j < i ==> is_digit_spec(#[trigger] sb[j]),
            acc == decimal_value_spec(sb.take(i as int)),
        decreases sb.len() - i,
    {
        let b: u8 = bytes[i];
        if b < 48 || b > 57 {
            proof {
                assert(sb[i as int] == b);
                assert(!is_digit_spec(sb[i as int]));
            }
            return None;
        }
        let d: usize = (b - 48) as usize;
        let scaled: usize = match acc.checked_mul(10) {
            Some(m) => m,
            None => {
                proof {
                    assert(sb[i as int] == b);
                    lemma_decimal_value_step(sb, i as int);
                    if all_digits_spec(sb) {
                        lemma_decimal_value_prefix_le(sb, i as int + 1);
                        assert(decimal_value_spec(sb.take(i as int + 1)) == acc * 10 + (b - 48));
                        assert(decimal_value_spec(sb) > usize::MAX);
                    }
                }
                return None;
            },
        };
        let next: usize = match scaled.checked_add(d) {
            Some(n) => n,
            None => {
                proof {
                    lemma_decimal_value_step(sb, i as int);
                    if all_digits_spec(sb) {
                        lemma_decimal_value_prefix_le(sb, i as int + 1);
                    }
                }
                return None;
            },
        };
        proof {
            lemma_decimal_value_step(sb, i as int);
        }
        acc = next;
        i = i + 1;
    }
    proof {
        assert(sb.take(i as int) =~= sb);
    }
    Some(acc)
}

/// Appending one digit multiplies the number so far by ten and adds the
/// digit.
proof fn lemma_decimal_value_step(s: Seq<u8>, i: int)
    requires
        0 <= i < s.len(),
    ensures
        decimal_value_spec(s.take(i + 1)) == decimal_value_spec(s.take(i)) * 10 + (s[i] - 48),
{
    assert(s.take(i + 1).drop_last() =~= s.take(i));
    assert(s.take(i + 1).last() == s[i]);
}

} // verus!
