# tkey_luks

The verified core of a LUKS2 unlocking scheme that needs both a Tillitis
TKey and the TPM: the TPM signs a nonce from the TKey only while the measured
boot chain is unchanged, and the TKey derives the disk's keyfile from its
device secret and the user's passphrase.

- `src/` — the library, verified with Verus:
  - `messages` — the one-byte status protocol as the host reads and writes it;
  - `firmware` — the TKey application as a state machine (nonce, X25519
    key exchange, signature check, touch confirmation, at most three
    passphrases, the keyfile derived from the decrypted hash and sent
    encrypted);
  - `loader` — loading the application binary into the TKey;
  - `handshake` — the host's opening of a session (nonce for the TPM, key
    exchange, the TPM's answer, trust);
  - `attempt` — one unlocking attempt of the host (passphrase, keyfile,
    `cryptsetup`, verdict to the TKey);
  - `proxy_enroll` — the QubesOS enrollment after the handshake (new
    passphrase, keyfile, what the dom0 proxy receives);
  - `session` — the host's channel to the TKey (X25519, ChaCha20), Argon2id
    passphrase hashing, trust decision and the three unlocking attempts;
  - `tpm` — turning the TPM's signature into the form the TKey checks;
  - `cryptsetup` — `cryptsetup` arguments and exit statuses;
  - `enroll` — the decisions of the enrollment programs;
  - `crypto` — the cryptographic crates behind small trusted wrappers;
  - `laws` — properties of the protocol as a whole.
- `app/` — the programs: the initramfs unlocker, the enrollment programs,
  the dom0 TPM proxy, and the TKey application's hardware driver.
- `tests/` — tests of the library.
