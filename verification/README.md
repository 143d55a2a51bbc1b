# Aleo light prover

A standalone Aleo prover that takes coinbase puzzles from a beacon, without running a full node.
What it decides is a library verified with Verus. What it does about it is a plain program.

## The library, `src/`

| Module | What it decides |
| --- | --- |
| `prover` | how many thread pools there are, which work is taken up or dropped, what is counted |
| `rates` | how fast the prover works, over the last minutes and up to an hour |
| `puzzle` | how the coinbase puzzle is solved, and how difficult a solution is |
| `account` | which view key and address a private key gives |
| `options` | what the command line leads to |
| `client_direct` | how to answer a beacon |
| `client` | how to answer a mining pool that speaks stratum |
| `node` | how to answer an operator node |
| `codec`, `text` | job ids, little-endian numbers and decimal text |
| `vanity` | which accounts have a pretty address, and when a search for one is over |
| `fake_server` | what a server that plays back recorded templates sends |
| `link` | what the clients share |

Each client is a session that takes in what happened on its link and says what to do next. The
functions whose names start with `law_` prove what holds of many calls together, such as that the
prover is always on the newest epoch that it had work for.

Calls into `snarkvm`, `snarkvm-algorithms`, `hex` and `rand` stand behind small functions marked
`external_body`. Their doc comments say what is believed of each.

## The program, `app/`

Sockets, timers, threads, logging and the command line. `beacon_wire.rs` needs the crate `snarkos-node-messages`.

## The tests, `tests/`

They run the library on concrete values, one file for each module.
