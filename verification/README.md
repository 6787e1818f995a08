# fvoci_http

The HTTP layer of a document and task workspace: what each request has to bring, what is made of
what the store and the services say, and what is answered.

The library under `src/` decides. It is written in Verus, and every function states in its contract
what it returns: which problem on which input, which headers, which bytes of a file, which entry of
an archive. It performs no input or output. Rows, outcomes of the store, parsed bodies and the time
come in as plain values.

* `authz`, `guard`, `consent`, `policy`, `rate_limit`: who may do what, in which order a route looks
  at a request, and how often one may ask.
* `error`, `problem`, `store`, `answer`: problems, and how what the store keeps is answered.
* `text`, `number`, `ids`, `time`, `json`, `json_input`, `query`, `header`, `cookie`, `digest`,
  `encoding`: reading and writing.
* `routes`: one module for each subject.

Properties of several functions at once are public proof functions whose names begin with `law_`.

`app/` is the server around the library: routing, credentials, bodies and streams, on top of axum.
The store and the services come from the embedding program, as an implementation of `host::Host`.
