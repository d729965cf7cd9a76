# madscape

An escrow for two-player matches on Solana. Player A opens a match with a stake in
lamports or in tokens of an approved mint, player B joins with the same stake, and
the release authority settles the match: the winner gets both stakes less a 5% fee,
which goes to the treasury. An open match can be cancelled and its stake refunded.

## Layout

- `src/` is the verified library (Verus):
  - `pubkey.rs`: account addresses, and the two computations taken from
    solana-program (program derived addresses, base58 text);
  - `state/`: the match and release authority accounts, with their views;
  - `maths.rs`, `strings.rs`: fees and match ids;
  - `instructions/`: every instruction as a function from the accounts it reads to
    the accounts it writes and the transfers it asks for;
  - `laws.rs`: properties that span several instructions.
- `tests/`: tests of the library.
- `app/`: the Anchor program: account validation, entry points, and the transfers
  and account writes that the library's results call for.
