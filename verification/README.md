# gcp_bigquery_client

A client library for GCP BigQuery, written in Verus.

- `src/` is the verified library:
  - `client.rs`: the client and its per-resource API handles, the base-URL
    rebasing of all handles, and the TLS setting decision;
  - `response.rs`: how an HTTP response (status and body) becomes a payload
    or a `BQError`, including the error synthesised for bodies that hold no
    structured error;
  - `encoding.rs`: `application/x-www-form-urlencoded` encoding of URL parts;
  - `error.rs`, `model/`: the error types and the REST data model;
  - `outside.rs`: the trusted declarations of the outside crates it calls
    (`reqwest`, `serde_json`, `url`).
- `app/` holds the I/O around it: building the HTTP client, reading
  responses asynchronously, and the JSON forms of the data model.
- `tests/` exercises the library on concrete values.
