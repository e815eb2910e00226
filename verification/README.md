# rewards_program

The logic of a Solana rewards program, verified with Verus: token
distributions with vesting schedules (direct and merkle-proof based) and
continuous reward pools that pay holders of a tracked token in proportion to
their balance.

## Layout

- `src/` — the verified library.
  - `codec.rs`: little-endian field encodings of the account layouts.
  - `errors.rs`: the program's error codes and the runtime error values.
  - `state/`: every account type, its byte layout (parse and serialize,
    with round-trip lemmas), its PDA seeds and its checks.
  - `traits/`: account headers and (de)serialization, PDA derivation, claim
    tracking, distributions, vesting parameters, events, instruction
    discriminators.
  - `utils/`: vesting schedules and unlock arithmetic, merkle leaves and
    proofs, claim resolution, revoke modes, reward-per-token accounting of
    continuous pools, program-id, signer, writable, owner and
    associated-token-account checks, reads of the token base layouts,
    Token-2022 extension checks, and the plans for creating and closing
    program accounts.
  - `instructions/`: instruction data parsers, the checks of each
    instruction's accounts and, for each instruction, the decision it makes (what is claimed, revoked, allocated or refused), with
    laws on what these decisions keep.
- `tests/` — tests of the library, run against the real outside crates.
- `app/` — runtime glue: account access, sysvars, token transfers and the
  instruction handlers that apply the library's decisions.

Calls into outside crates (Keccak-256 from `const-crypto`, program address
search from `solana-address`, program ids from the pinocchio crates, mint
extension parsing from `spl-token-2022`) sit
behind small trusted wrappers whose contracts are stated in `src/`.
