# ecosystem

A small ecological simulation: organisms produce food of one kind, send it to
their peers over gRPC, and eat the food of another kind that their peers send.

- `src/` is the verified library (Verus): the organisms' bookkeeping (`state`,
  `organism::state`), the decisions they take while exchanging food and
  reporting to the observer (`organism::service`, `retry`, `server`), the
  choice of configuration environment (`configuration`), the simple food
  source (`food_producer`) and the observer's reply (`observer`).
- `app/` is the program around it: configuration files, command-line
  arguments, the gRPC messages and services, and the async loops.
- `tests/` exercises the library.

Run `ecosystem <index>` for an organism that exchanges food with its peers;
`ecosystem organism --index <i> --name <n> --outgoing <kind> --incoming <kind>`
for an organism with a finite stock that reports to the observer;
`ecosystem observer` for the observer; `ecosystem food-producer` and
`ecosystem food-consumer` for the simple food source and its client.
Settings are read from `configuration/base` and `configuration/<environment>`
(`APP_ENVIRONMENT`, default `local`), then from `APP_`-prefixed variables.
