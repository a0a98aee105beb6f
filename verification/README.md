# hash_graph_api

The account and authentication RPC services of the graph, with their decision logic
verified by Verus.

- `src/` is the verified library: identifiers and service metadata (`rpc`, `ids`,
  `account::meta`, `auth::meta`), the session (`session`), the authorization values the
  account service reads and writes (`authorization`), the account service's request
  state machine, delegate routing and client invocations (`account`), the properties
  proved of them (`account::properties`), and authentication (`auth`).
- `app/` runs the library against the outside world: the async service traits, the
  server loop that performs each action an account operation asks for, the delegates
  that decode requests and encode answers, the clients, and serializable copies of the
  library's values.
- `tests/` exercises the library on concrete values.
