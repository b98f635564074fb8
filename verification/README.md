# tatara-process (verified core)

The vocabulary and decision logic of the tatara process controller,
written in Verus and proved against its contracts:

- `phase` — the Process phase machine (legal transitions, liveness
  predicates, the released-from annotation codec);
- `signal` — Unix-style process signals and SIGHUP strategies;
- `pool_policy`, `pool` — `EphemeralPool` policies, member bookkeeping,
  status fan-out and the allocation selector;
- `routing`, `routing_edge_resource`, `k8s_wire_identity`,
  `annotations` — declared DNS/Ingress edges;
- `receipt` — the `tatara-receipt/v1` envelope: BLAKE3 composed root,
  shape checks, root verification;
- `patch`, `requeue`, `process_api`, `qualified`, `secret_env`,
  `serde_defaults` — patch bodies and parameters, requeue intents and
  diagnostic texts;
- `text`, `outside` — verified string primitives and the outside types
  the library carries.

Calls into outside crates (blake3, hex, humantime, kube, serde_json,
chrono, std) sit behind small trusted items whose contracts are stated
in their doc comments.

`app/` holds what Verus does not see: serde/JSON-schema wire forms of
the library's types, receipt decoding from JSON/YAML, the patch calls
against the Kubernetes API and the environment read of a secret.
