# rustup_tuf

The verified core of TUF (The Update Framework) validation of Rust channel
manifests.

- `src/config.rs`: the `RUSTUP_TUF_*` settings (`TufConfig`, `TufMode`) and how
  they are read.
- `src/time.rs`: instants and dates; parsing of `RUSTUP_TUF_IGNOREDATE` (chrono).
- `src/manifest.rs`: where a toolchain's channel manifest lives, its update
  hash (sha2, faster-hex), and what becomes of the fetched bytes.
- `src/provider.rs`: the remote repository location and URLs (url, tuf), the
  candidate paths of an unverified read, and the policy that decides whether
  a verification failure is tolerated.
- `src/text.rs`: string comparison helpers.
- `app/`: the I/O around it: the process environment, the `tuf` client and
  the repository providers it reads through.
