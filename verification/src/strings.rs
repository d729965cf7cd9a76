//! Match ids: a key derived from the latest slot hash and the time, written in base58
//! and padded to a fixed length.
use vstd::prelude::*;
use vstd::utf8::{encode_scalar, encode_utf8, is_ascii_chars};

use crate::constants::{ID, MATCH, MAX_MATCH_ID_LENGTH};
use crate::pubkey::{base58_text, program_address, seeds_view, to_base58_string, try_find_program_address, Pubkey};

verus! {

broadcast use {vstd::string::group_string_axioms, vstd::utf8::group_utf8_lib};

/// The number of bytes `c` takes in UTF-8.
pub open spec fn utf8_width(c: char) -> nat {
    encode_utf8(seq![c]).len()
}

/// `text` followed by as many `character`s as fit in `max_length` bytes of UTF-8
/// together with the bytes of `text`.
pub open spec fn padded(text: Seq<char>, max_length: nat, character: char) -> Seq<char> {
    text + Seq::new(
        ((max_length - encode_utf8(text).len()) / (utf8_width(character) as int)) as nat,
        |i: int| character,
    )
}

/// The UTF-8 bytes of two texts one after the other are the bytes of each, one
/// after the other.
pub proof fn lemma_encode_utf8_concat(a: Seq<char>, b: Seq<char>)
    ensures
        encode_utf8(a + b) == encode_utf8(a) + encode_utf8(b),
    decreases a.len(),
{
    if a.len() == 0 {
        assert(a + b =~= b);
        assert(encode_utf8(a) + encode_utf8(b) =~= encode_utf8(b));
    } else {
        assert((a + b)[0] == a[0]);
        assert((a + b).drop_first() =~= a.drop_first() + b);
        lemma_encode_utf8_concat(a.drop_first(), b);
        let head = encode_scalar(a[0] as u32);
        assert(head + (encode_utf8(a.drop_first()) + encode_utf8(b)) =~= (head + encode_utf8(
            a.drop_first(),
        )) + encode_utf8(b));
    }
}

/// Appends `c` to `s`: `String::push` of std.
#[verifier::external_body]
fn push_char(s: &mut String, c: char)
    ensures
        final(s)@ == old(s)@.push(c),
{
    s.push(c);
}

/// The number of bytes `c` takes in UTF-8: 1 to 4.
fn char_width(c: char) -> (width: usize)
    ensures
        width == utf8_width(c),
        1 <= width <= 4,
        c <= '\u{7f}' ==> width == 1,
{
    let v: u32 = c as u32;
    proof {
        assert(seq![c].drop_first() =~= Seq::<char>::empty());
        assert(seq![c][0] == c);
        assert(encode_utf8(seq![c]) == encode_scalar(c as u32) + encode_utf8(seq![c].drop_first()));
        assert(encode_utf8(Seq::<char>::empty()).len() == 0);
        assert(encode_utf8(seq![c]).len() == encode_scalar(v).len());
        assert(vstd::utf8::is_scalar(v));
    }
    if v < 0x80 {
        1
    } else if v < 0x800 {
        2
    } else if v < 0x10000 {
        3
    } else {
        4
    }
}

/// Pads `string` with `character` up to `max_length` bytes of UTF-8: adds as many
/// `character`s as fit. With a one-byte `character` the result takes exactly
/// `max_length` bytes.
///
/// `pad_str("Hello", 10, '_')` is `"Hello_____"`.
pub fn pad_str(string: &str, max_length: usize, character: char) -> (padded_string: String)
    requires
        encode_utf8(string@).len() <= max_length,
    ensures
        padded_string@ == padded(string@, max_length as nat, character),
        // The text comes first, then only `character`s.
        padded_string@.len() >= string@.len(),
        padded_string@.subrange(0, string@.len() as int) == string@,
        forall|i: int|
            string@.len() <= i < padded_string@.len() ==> #[trigger] padded_string@[i] == character,
        // The padded text never takes more than `max_length` bytes, and one more
        // `character` would not fit.
        encode_utf8(padded_string@).len() <= max_length,
        encode_utf8(padded_string@).len() + encode_utf8(seq![character]).len() > max_length,
        // Padded with a one-byte character, the text takes exactly `max_length` bytes.
        character <= '\u{7f}' ==> encode_utf8(padded_string@).len() == max_length,
        // ASCII text padded with an ASCII character is exactly `max_length` characters long.
        is_ascii_chars(string@) && character <= '\u{7f}' ==> padded_string@.len() == max_length
            && is_ascii_chars(padded_string@),
{
    let mut padded_string = string.to_string();
    let mut padding = String::new();
    let width = char_width(character);
    let room: usize = max_length - string.len();
    let mut used: usize = 0;
    let mut k: usize = 0;
    proof {
        assert(padding@ =~= Seq::new(0, |i: int| character));
    }
    while width <= room - used
        invariant
            width == utf8_width(character),
            1 <= width <= 4,
            used <= room,
            k <= used,
            used == k * width,
            padding@ =~= Seq::new(k as nat, |i: int| character),
            encode_utf8(padding@).len() == used,
        decreases room - used,
    {
        let ghost before = padding@;
        push_char(&mut padding, character);
        proof {
            assert(padding@ =~= before + seq![character]);
            lemma_encode_utf8_concat(before, seq![character]);
            assert((k + 1) * width == k * width + width) by (nonlinear_arith);
        }
        used = used + width;
        k = k + 1;
    }
    proof {
        assert(k == room / width) by (nonlinear_arith)
            requires
                used == k * width,
                used <= room,
                room - used < width,
                width >= 1,
        ;
    }
    padded_string.append(padding.as_str());
    proof {
        assert(padded_string@ =~= string@ + padding@);
        lemma_encode_utf8_concat(string@, padding@);
        if character <= '\u{7f}' {
            assert(is_ascii_chars(padding@));
        }
    }
    padded_string
}

/// The little-endian bytes of `now`, as `i64::to_le_bytes` gives them.
pub open spec fn le_bytes(now: i64) -> Seq<u8> {
    let u = now as u64;
    seq![
        (u & 0xff) as u8,
        ((u >> 8) & 0xff) as u8,
        ((u >> 16) & 0xff) as u8,
        ((u >> 24) & 0xff) as u8,
        ((u >> 32) & 0xff) as u8,
        ((u >> 40) & 0xff) as u8,
        ((u >> 48) & 0xff) as u8,
        ((u >> 56) & 0xff) as u8,
    ]
}

/// The seeds of a match id: `b"match"`, bytes 12 to 20 of the slot hashes sysvar
/// (the start of the latest slot hash) and the time in little-endian bytes.
pub open spec fn escrow_seeds(slothashes: Seq<u8>, now: i64) -> Seq<Seq<u8>> {
    seq![MATCH@, slothashes.subrange(12, 20), le_bytes(now)]
}

/// The match id for the slot hashes sysvar data `slothashes` at time `now`: `0x`,
/// then the address derived from `escrow_seeds` under this program in base58,
/// padded with `_` to 64 characters; `None` when no address is derived.
pub open spec fn escrow_id(slothashes: Seq<u8>, now: i64) -> Option<Seq<char>> {
    match program_address(escrow_seeds(slothashes, now), ID@) {
        Some(found) => Some(padded(seq!['0', 'x'] + base58_text(found.0), 64, '_')),
        None => None,
    }
}

/// The little-endian bytes of `now`.
fn le_bytes_vec(now: i64) -> (bytes: Vec<u8>)
    ensures
        bytes@ == le_bytes(now),
{
    let u: u64 = now as u64;
    let mut bytes: Vec<u8> = Vec::new();
    bytes.push((u & 0xff) as u8);
    bytes.push(((u >> 8) & 0xff) as u8);
    bytes.push(((u >> 16) & 0xff) as u8);
    bytes.push(((u >> 24) & 0xff) as u8);
    bytes.push(((u >> 32) & 0xff) as u8);
    bytes.push(((u >> 40) & 0xff) as u8);
    bytes.push(((u >> 48) & 0xff) as u8);
    bytes.push(((u >> 56) & 0xff) as u8);
    assert(bytes@ =~= le_bytes(now));
    bytes
}

/// Generates a match id from the data of the slot hashes sysvar and the time of the
/// cluster's clock, in the format `0x{generated_game_key}` followed by `_` up to 64
/// characters: the key is the address derived from them under this program, in
/// base58. `None` when no address can be derived.
pub fn generate_escrow_id(recent_slothashes: &[u8], unix_timestamp: i64) -> (id: Option<String>)
    requires
        recent_slothashes@.len() >= 20,
    ensures
        id is None <==> escrow_id(recent_slothashes@, unix_timestamp) is None,
        id matches Some(text) ==> {
            &&& escrow_id(recent_slothashes@, unix_timestamp) == Some(text@)
            &&& text@.len() == MAX_MATCH_ID_LENGTH
            &&& is_ascii_chars(text@)
        },
{
    let mut seeds: Vec<Vec<u8>> = Vec::new();
    seeds.push(vstd::slice::slice_to_vec(&MATCH));
    seeds.push(vstd::slice::slice_to_vec(vstd::slice::slice_subrange(recent_slothashes, 12, 20)));
    seeds.push(le_bytes_vec(unix_timestamp));
    proof {
        assert(seeds_view(seeds@) =~= escrow_seeds(recent_slothashes@, unix_timestamp));
    }
    let (generated_game_key, _bump) = match try_find_program_address(&seeds, &Pubkey::new_from_array(ID)) {
        Some(found) => found,
        None => return None,
    };
    let key_text = to_base58_string(&generated_game_key);
    let mut escrow_id = String::new();
    push_char(&mut escrow_id, '0');
    push_char(&mut escrow_id, 'x');
    escrow_id.append(key_text.as_str());
    proof {
        assert(escrow_id@ =~= seq!['0', 'x'] + base58_text(generated_game_key@));
        assert(is_ascii_chars(escrow_id@));
    }
    Some(pad_str(escrow_id.as_str(), MAX_MATCH_ID_LENGTH, '_'))
}

} // verus!
