# polygon_io

A client library for the Polygon.io market data REST API, written in Verus.

`src/` is the verified library. It decides everything about a request and
its answer:

- `query.rs`: query parameters, a small map whose names stay unique and
  whose pairs keep the order in which they were first set;
- `request.rs` and `stocks/`: the request (endpoint and parameters) of each
  endpoint;
- `client.rs`: the client, the URL of a request (built with the `url` crate),
  and what an answer comes to from its status, its body and the decoding of
  that body;
- `types.rs`: calendar dates and timestamps (checked and formatted with
  `chrono`);
- `text.rs`: decimal rendering, trimming and joining of text;
- `error.rs`: the error type and its messages.

`app/` sends the requests with `reqwest`, reads and deserializes the answers
with `serde`, hands status, body and decoding to the library, and holds the
response types, whose prices are floating point.
