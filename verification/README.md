# secret_random

A verified core for an SGX randomness service.

- `src/binding.rs` — the proof digest over height, encrypted value, block hash and secret.
- `src/crypto.rs` — trusted bindings to SHA-256 (`sha2`) and AES-SIV (`aes-siv`).
- `src/validator_set.rs` — the sealed validator-set record and its Tendermint hash.
- `src/enclave.rs` — generation, validation and validator-set submission.
- `src/storage.rs` — the sealing steps, driven by the file layer.
- `src/host.rs` — host-side argument checks, enclave outcomes, scheduled transactions.
- `app/` — the C interface, file access, randomness, dynamic symbols and logging.
