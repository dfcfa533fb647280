# biometric

Touch ID unlock for a password vault, as a verified Verus library.

An agent opens a session with a private helper process and hands it the vault
key. The helper wraps the key with a Secure Enclave key that is bound to the
enrolled fingers, forgets the clear text, and unwraps it when the agent asks and
the user authenticates.

- `src/`: the library. `session`, `helper`, `enclave` and `spawn` are the state
  machines of the two processes; `pipe` and `wait` follow transfers and timeouts;
  `error`, `keys`, `digest`, `text` and `protocol` hold what they share.
  `conversation` proves what the two processes do together: every unlock in which
  the enclave decrypts what it wrapped ends with the vault key that the session
  was opened with.
- `tests/`: the library at work, with real pipes and digests.
- `app/`: the processes, pipes, system calls and Security framework calls.

Three outside calls are believed, not proved: `sha2::Sha256::digest`,
`zeroize::Zeroize::zeroize` on a `Vec<u8>`, and the value of
`rustix::io::Errno::INTR`. The contract of each stands at its wrapper.
