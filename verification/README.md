# amax_node

The decisions of an AMAX node, written in Verus and verified.

* `src/service/` decides how a node starts. `steps` holds the steps in their
  order and which of them a configuration wants, `action` what is done in each,
  and `startup` the machine that walks through them: it says what to do next and
  is told how that went. `database` finds the Frontier database, `tasks` lists
  the Frontier tasks, `inherents` computes timestamps and slots, `keystore`
  refuses remote keystores. `components` says which step makes each component
  of the node and which steps are handed it, and `laws` what holds of every
  start.
* `src/chain_spec/` describes the Wall-e networks and builds their genesis
  state.
* `src/executor.rs` holds the bare type of the native executor and the rule that
  only a benchmarking build extends it with host functions. The executor
  instance itself is in `app/service.rs`, where its host functions are chosen by
  the associated type of a trait when the node is built.
* `app/` is the node around the library: it performs the actions with the
  Substrate and Frontier crates.
* `tests/` runs the library on concrete values.
