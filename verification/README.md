# spark_connect

A client library for [Spark Connect](https://spark.apache.org/docs/latest/spark-connect-overview.html)
servers, verified with Verus.

- `src/` is the library. It decides what a client sends and what it does with each
  response: session identifiers (`session_id`), the requests of the protocol
  (`plan`), decoding Arrow IPC streams (`arrow_stream`), the client that connects to a
  host and runs SQL queries (`client`), sessions and data frames (`session`), and the
  properties that hold across these (`laws`).
- `app/` is the command line program: it does the gRPC calls and hands every
  response to the library.
- `tests/` runs the library on concrete values.
