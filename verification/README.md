# kuberic

The decisions of a replicated, Kubernetes-hosted data service, written in Verus and
proved against their contracts. The library never performs I/O. A protocol or a
long-running activity is a sequence of states: a state says what is to be done next,
and a verified function takes what came of it to the next state.

| Module | What it decides |
| --- | --- |
| `replicator` | The log of a secondary, the replication stream, the copy stream and the copy context |
| `transactional` | How a transactional replica takes in operations and copies, answers its replicator and changes roles |
| `maintenance` | Node maintenance requests: placement of primaries, reconciles, release, events, and a lifecycle scenario |
| `barrier` | What a barrier in front of SQLite's write-ahead log holds back, publishes and writes |
| `text`, `types` | Text and values that the others share |

Each of the four areas has a module `laws` with what holds across calls;
`maintenance::lifecycle_laws` has what holds of a whole scenario, and placement and
events keep theirs beside the functions.

What is trusted rather than proved are the calls into other crates: the payload type
and its conversions (`replicator::payload`, crate `bytes`), the printed form of a point
in time (`maintenance::clock`, crate `jiff` through `k8s-openapi`), the SHA-256 digest
(`transactional::replica`, crate `sha2`) and a random number (`maintenance::lifecycle`,
crate `rand`).

`app/` is ordinary Rust around the library: streams and channels, the Kubernetes API,
the replica host and the SQLite VFS.
