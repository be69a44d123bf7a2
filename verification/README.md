# akson

The decision core of an agent endpoint, written in Verus, and a daemon around it.

An endpoint exchanges tasks with peers that its operator has imported by their tokens.
It keeps their identities pinned, takes proposals without acting on them, and acts only
on what the operator has approved: a work order grants what was asked for and given,
once. Bytes that are to be disclosed are staged first, consented to by the operator,
and dispatched once.

## Layout

- `src/` is the library. It holds the state and every decision, each with a contract
  that Verus proves. It does no input or output.
  - `store` and the modules below it: the state of an endpoint and all that changes it.
  - `operator`, `control`, `control_dispatch`, `request`, `reactor`: the requests of the
    operator and the reactions to tasks that arrive.
  - `propose`, `decision`, `approve`, `issue`, `authority`, `contract`, `gate`, `inert`:
    from a proposal to a work order, and from a result to what may leave.
  - `ingress`, `receive_http`, `receive_coord`, `delivery`, `a2a_client`, `export`: what
    comes in and goes out over the network.
  - `introduce`, `identity`, `tls`, `pairing`, `address`: who a peer is.
  - `coord`, `coord_stage`, `coord_card`, `coord_dispatch`, `coord_egress`, `coord_peers`,
    `coord_requests`, `coord_order`: staged disclosures, and the order that they keep.
  - `broker`, `broker_channel`: processors and the channel of a worker.
  - `audit`, `clock`, `config`, `meta`, `limits`, `endpoint`: the rest of the daemon.
  - `table`, `text`, `numerals`: records, texts and numbers.
  - `outside`: the calls into outside crates, whose contracts are believed.
- `tests/` runs the library.
- `app/` is the daemon: files, sockets, TLS and the clock. The keys of the endpoint, its
  sandbox, its certificates and the schema of coordination envelopes are with a helper
  program that it asks.

## Stating and proving

A type has a view, and contracts speak of views. A function that changes the store says
what the state is afterwards, and when it refuses. What an outside party decides (a
signature, the clock, a peer's answer) enters as an argument, so that the contract holds
for every value of it. Public proof functions state what holds across functions.

These rules are the library's own. They are stated and proved where they stand, and called
from no outside crate:

- how a revision moves the head of a task, when a head is accepted, and when a contract is
  effective (`contract`);
- what makes up a vector of capabilities, and by which events an attempt moves (`authority`);
- by which events a processor call moves (`broker`);
- that a peer is suspended whose pinned material or name changes (`identity`);
- when a certificate is current (`tls`).
