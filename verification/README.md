# sui-cluster-test

A suite of test cases against a Sui cluster.

A test case is a state machine. It asks for one thing at a time (`Request`), is
handed what came back (`Reply`), and decides on it what to ask for next, or that
the cluster passed, that a call failed, or that a condition did not hold. So
everything that a case decides stands in `src/` and is verified, whatever a
cluster answers; `app/` talks to the cluster.

- `case`: test cases in general, and the runner of one
- `test_case/`: the cases; each states exactly on which replies it passes
- `sync`, `faucet`: waiting for the fullnode to observe transactions, and getting
  coins
- `context`: what every case is run with
- `cluster_test`: the suite and its report
- `protocol`, `values`, `violation`: what is asked for, what comes back, and what
  can be wrong with it
- `remote`, `object_basics`, `upgrade`: calls and transactions to be built
- `helper`, `json`, `text`, `elapsed`: objects and balances, JSON documents, texts
  and spans of time

`tests/` runs every case against a cluster that behaves and against each way in
which it can fail to. `app/` needs the Sui crates.
