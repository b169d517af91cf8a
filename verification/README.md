# bevy_context_steering

Context steering for agents in Bevy with Avian3D physics: behaviours vote into
per-direction interest, danger and velocity maps over a shared set of sample
directions, which are resolved into a direction and velocity for motion.

- `src/` is the verified library: the cluster map and cluster exits, the
  reconciliation of neighbour and obstacle relationships with a frame's
  spatial-query hits, the shared direction sets and their memoising registry,
  and the plain behaviour, motion and detection components. Its contracts
  and laws are proved.
- `app/` is the engine plugin: components with their engine derives, the
  systems, and the floating-point steering model (fields, falloff curves,
  prediction, motion).
- `tests/` exercises the library on concrete values.
