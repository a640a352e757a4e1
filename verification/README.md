# runtime_override

Builds a Darwinia runtime with EVM tracing from its repository and collects the
Wasm (and a JSON digest of its runtime information) in an output directory;
also holds the Pangolin runtime helpers that such a runtime carries.

- `src/cli.rs`: the tool's steps, derived from its options (paths, commands,
  how a failed command ends the run).
- `src/era.rs`: mortal transaction eras and their lifetime.
- `src/runtime.rs`: the Pangolin runtime's version, signed-transaction
  extensions, Ethereum-transaction extrinsics, upgrade migration and bridge
  account-ownership digest.
- `src/scale.rs`: the SCALE encodings used, through `parity-scale-codec`.
- `app/main.rs`: the command-line program that performs the steps.
