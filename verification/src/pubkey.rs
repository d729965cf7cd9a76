//! Account addresses, and the two computations on them that the program takes from
//! solana-program: deriving a program address and writing a key in base58.
use vstd::prelude::*;
use vstd::std_specs::cmp::PartialEqSpecImpl;

verus! {

broadcast use vstd::array::group_array_axioms;

/// The address of an account: 32 bytes.
#[derive(Clone, Copy, Debug)]
pub struct Pubkey {
    pub bytes: [u8; 32],
}

impl View for Pubkey {
    type V = Seq<u8>;

    open spec fn view(&self) -> Seq<u8> {
        self.bytes@
    }
}

/// The default key, all 32 bytes zero; the program reads it as "no account".
pub open spec fn zero_key() -> Seq<u8> {
    Seq::new(32, |i: int| 0u8)
}

impl Pubkey {
    /// The key made of the given bytes.
    pub fn new_from_array(bytes: [u8; 32]) -> (key: Pubkey)
        ensures
            key@ == bytes@,
    {
        Pubkey { bytes }
    }

    /// The bytes of the key.
    pub fn to_bytes(&self) -> (bytes: [u8; 32])
        ensures
            bytes@ == self@,
    {
        self.bytes
    }

    /// Whether this is the default key.
    pub fn is_default(&self) -> (b: bool)
        ensures
            b == (self@ == zero_key()),
    {
        let zero = Pubkey::default();
        *self == zero
    }
}

impl Default for Pubkey {
    fn default() -> (key: Pubkey)
        ensures
            key@ == zero_key(),
    {
        let key = Pubkey { bytes: [0u8; 32] };
        assert(key@ =~= zero_key());
        key
    }
}

impl PartialEq for Pubkey {
    fn eq(&self, other: &Self) -> (same: bool) {
        let mut i: usize = 0;
        while i < 32
            invariant
                i <= 32,
                forall|j: int| 0 <= j < i ==> self@[j] == other@[j],
            decreases 32 - i,
        {
            if self.bytes[i] != other.bytes[i] {
                return false;
            }
            i = i + 1;
        }
        assert(self@ =~= other@);
        true
    }
}

impl Eq for Pubkey {

}

impl PartialEqSpecImpl for Pubkey {
    open spec fn obeys_eq_spec() -> bool {
        true
    }

    open spec fn eq_spec(&self, other: &Pubkey) -> bool {
        self@ == other@
    }
}

/// The views of a list of seeds.
pub open spec fn seeds_view(seeds: Seq<Vec<u8>>) -> Seq<Seq<u8>> {
    seeds.map_values(|s: Vec<u8>| s@)
}

/// The program derived address and bump seed that `Pubkey::try_find_program_address`
/// of solana-program finds for `seeds` under `program_id`, or `None` when it finds
/// none.
pub uninterp spec fn program_address(seeds: Seq<Seq<u8>>, program_id: Seq<u8>) -> Option<(Seq<u8>, u8)>;

/// Calls `solana_program::pubkey::Pubkey::try_find_program_address`. The contract
/// claims that its result, a key and a bump seed or `None`, is what `program_address`
/// names for the seeds and the program id; that function depends on them alone (a
/// hash of the seeds, a bump seed and the program id, searched until it is off the
/// curve). The source returns `None` when no bump seed gives an address off the
/// curve or when the seeds are too many or too long; it does not panic. Which
/// address a given list of seeds yields is not stated.
#[verifier::external_body]
pub(crate) fn try_find_program_address(seeds: &Vec<Vec<u8>>, program_id: &Pubkey) -> (found: Option<(Pubkey, u8)>)
    ensures
        found matches Some(f) ==> program_address(seeds_view(seeds@), program_id@) == Some(
            (f.0@, f.1),
        ),
        found is None ==> program_address(seeds_view(seeds@), program_id@) is None,
{
    let slices: Vec<&[u8]> = seeds.iter().map(|seed| seed.as_slice()).collect();
    let program = solana_program::pubkey::Pubkey::new_from_array(program_id.bytes);
    match solana_program::pubkey::Pubkey::try_find_program_address(&slices, &program) {
        Some((key, bump)) => Some((Pubkey { bytes: key.to_bytes() }, bump)),
        None => None,
    }
}

/// The character of base58 digit `d`, 0 to 57, in the alphabet
/// `123456789ABCDEFGHJKLMNPQRSTUVWXYZabcdefghijkmnopqrstuvwxyz` (no `0`, `I`, `O`
/// or `l`).
pub open spec fn base58_digit(d: int) -> char {
    if d < 9 {
        ('1' as int + d) as char
    } else if d < 17 {
        ('A' as int + (d - 9)) as char
    } else if d < 22 {
        ('J' as int + (d - 17)) as char
    } else if d < 33 {
        ('P' as int + (d - 22)) as char
    } else if d < 44 {
        ('a' as int + (d - 33)) as char
    } else {
        ('m' as int + (d - 44)) as char
    }
}

/// The number that `bytes` writes in base 256, most significant byte first.
pub open spec fn big_endian_value(bytes: Seq<u8>) -> nat
    decreases bytes.len(),
{
    if bytes.len() == 0 {
        0
    } else {
        (big_endian_value(bytes.drop_last()) * 256 + bytes.last()) as nat
    }
}

/// The base58 digits of `n`, most significant first; none for zero.
pub open spec fn base58_digits(n: nat) -> Seq<char>
    decreases n,
{
    if n == 0 {
        Seq::empty()
    } else {
        base58_digits(n / 58).push(base58_digit((n % 58) as int))
    }
}

/// How many bytes of `bytes` are zero before the first that is not.
pub open spec fn leading_zero_bytes(bytes: Seq<u8>) -> nat
    decreases bytes.len(),
{
    if bytes.len() > 0 && bytes[0] == 0 {
        1 + leading_zero_bytes(bytes.drop_first())
    } else {
        0
    }
}

/// The base58 text of `bytes`: a `1` for each leading zero byte, then the base58
/// digits of the number the bytes write.
pub open spec fn base58_text(bytes: Seq<u8>) -> Seq<char> {
    Seq::new(leading_zero_bytes(bytes), |i: int| '1') + base58_digits(big_endian_value(bytes))
}

/// A character of the base58 alphabet: digits but `0`, letters but `I`, `O` and `l`.
pub open spec fn is_base58_char(c: char) -> bool {
    ||| '1' <= c <= '9'
    ||| 'A' <= c <= 'Z' && c != 'I' && c != 'O'
    ||| 'a' <= c <= 'z' && c != 'l'
}

/// Formats a key with `Display` of `solana_program::pubkey::Pubkey`. The contract
/// claims that the text is the base58 text of the key's 32 bytes (five8's
/// `encode_32`, which its tests hold to the bs58 crate), at most 44 characters long
/// (the buffer that `write_as_base58` encodes into holds 44 bytes) and made of the
/// base58 alphabet.
#[verifier::external_body]
pub(crate) fn to_base58_string(key: &Pubkey) -> (text: String)
    ensures
        text@ == base58_text(key@),
        text@.len() <= 44,
        forall|i: int| 0 <= i < text@.len() ==> is_base58_char(#[trigger] text@[i]),
{
    format!("{}", solana_program::pubkey::Pubkey::new_from_array(key.bytes))
}

} // verus!
