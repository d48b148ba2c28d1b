# candidate_backing

The candidate backing subsystem of a relay chain validator. On top of each relay chain block it
runs a job that seconds a parachain candidate, checks the candidates that other validators of its
group have seconded, gathers their statements and hands out the candidates that have found enough
votes.

`src/` holds the decisions, verified with Verus. A job (`job`) and the subsystem (`subsystem`) are
state machines: they are handed what has happened and say what is to be done next. Their contracts
are stated over the mathematical transition functions in `protocol` and `subsystem`, and
`job_laws`, `subsystem_laws` and `laws` prove what follows for whole runs, such as that a job
seconds one candidate at the most and reports nobody twice.

| module | what it decides |
|---|---|
| `protocol`, `job` | what a job does with a message and with each piece of outside work that is done |
| `table` | membership, quorums, and statements in the terms of the statement table |
| `backed`, `bits` | candidates with enough votes in the form in which they go on chain |
| `availability` | who keeps which chunk of a candidate's data |
| `misbehavior` | who is to be reported |
| `startup` | groups and assignment of a job that is being set up |
| `jobs`, `subsystem` | which jobs run, and where messages go |
| `messages`, `primitives`, `error`, `digests` | the values that all of these work with |

The bits of the voters are kept in a `BitVec` of the `bitvec` crate. What is believed of it is
stated in `bits`; all else is proved.

`app/` runs the state machines in a node: channels, timers and spawned tasks (`job`, `subsystem`),
and the node's overseer, keystore, statement table and erasure coding (`node`, `registry`). It needs
the crates of the node to build.
