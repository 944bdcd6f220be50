# swap

The decision logic of an XMR/BTC atomic-swap node, with its contracts proved.

- `src/cli.rs`: the checks on the command-line swap options.
- `src/confirm.rs`: the user's confirmation of the offered amounts, and the
  loop that serves the swap's requests to the user on Bob's side.
- `src/message0.rs`: Alice's side of the message-0 exchange (state set once,
  Bob's messages handed to the swap in arrival order).
- `src/recover.rs`: recovery of Alice's side of a swap from its saved state,
  as a step function from the outcome of outside work to the next work.
- `src/monero_keys.rs`: the Monero spend key rebuilt from both key shares.
- `app/main.rs`: the command-line program that performs the outside work.
