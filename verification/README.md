# betterscale

Tools for starting a network: the zerostates of its masterchain and workchains, wallet accounts, and
entries for nodes of the distributed hash table.

The logic is a library verified with Verus. Cells, contracts, cryptography and files stay outside it:
the library asks for one action at a time, and goes on from the event that tells how the action went.

- `src/keys.rs`, `src/hex_text.rs`, `src/base64_text.rs`: keys as operators write them.
- `src/json.rs`: the JSON that is shown to operators.
- `src/config.rs`: the description of a network.
- `src/steps.rs`, `src/plan.rs`: the writes that make a masterchain state out of it.
- `src/accounts.rs`, `src/masterchain.rs`: the masterchain state in the making.
- `src/publication.rs`, `src/zerostates.rs`: from that state to the files.
- `src/command.rs`: the flow of the command line.
- `src/masterchain_run.rs`, `src/publication_run.rs`, `src/zerostates_run.rs`: what whole runs ask for.
- `tests/`: the library on concrete values.
- `app/`: the program. It carries the actions out with `ton_block` and `ton_types`, and with the
  modules `dht`, `ed25519` and `system_accounts`, which are kept elsewhere.
