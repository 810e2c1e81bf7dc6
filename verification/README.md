# ylong_https_proxy

Client side of an HTTPS proxy: an HTTP CONNECT tunnel through a proxy,
followed by TLS to the target, with a pool of reusable connections.

- `src/` is the verified library (Verus): configuration and its builder, the
  CONNECT request text and the verdict on the proxy's reply (as a state machine
  fed with the bytes read), the sharded connection pool's rules, the protocol
  registry, the TLS settings derived from a configuration, the loading of
  custom CA files and the server name of a tunnel's TLS session.
- `app/` holds the networked and asynchronous parts that drive the library:
  TCP and TLS connections (OpenSSL, rustls), the locked pool, the error type
  with display text, and a benchmark runner.
- `tests/` exercises the library on concrete values.
