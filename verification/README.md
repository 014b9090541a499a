# arti-c

A minimal library that runs the Arti Tor client in-process and serves a local
SOCKS proxy on `127.0.0.1:<port>`, with a small C ABI on top.

* `src/` is the library, verified with Verus: every decision that the client,
  its start and its SOCKS connections call for, as functions from what happened
  to what to do next. `src/laws.rs` and `src/ip_laws.rs` state what holds of
  them together.
* `app/` carries these decisions out: sockets, threads, the tokio runtime, the
  Tor client itself, and the C ABI.
* `tests/` runs the library, with the SOCKS protocol implementation of
  `tor-socksproto` linked in.

## C ABI

```c
arti       *arti_start(const char *data_dir, uint16_t socks_port);
int         arti_is_ready(arti *a);
uint16_t    arti_socks_port(arti *a);
const char *arti_last_error(const arti *a);
void        arti_stop(arti *a);
const char *arti_version(void);
```

* `arti_start` returns once the SOCKS listener is bound, without waiting for the
  client to bootstrap. Port 0 selects 9050. On failure it returns `NULL`, and
  `arti_last_error(NULL)` says why; the reason is kept until another start
  fails.
* `arti_is_ready` returns 1 once the client has bootstrapped, 0 while it is
  connecting, and -1 on error; `arti_last_error` then says why.
* The SOCKS proxy accepts connections until `arti_stop`, which shuts the client
  down and frees the handle.
