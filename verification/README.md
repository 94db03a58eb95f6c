# lantern-unbounded

The consumer and the peer proxy of the Unbounded network, as a library whose decisions are verified
with Verus.

- A **consumer** is a censored user. It runs a QUIC server over a virtual UDP socket whose paths lead
  through peers, and keeps its identity while peers come and go.
- A **peer proxy** is a sharing user. It relays opaque QUIC datagrams between a WebRTC data channel
  and the egress's WebSocket.

## Layout

`src/` is the library. It does no I/O: each protocol is a function or a state machine that takes what
has happened and answers with what to do, and its contract says exactly what that is. Properties that
span several functions are stated and proved as functions whose names start with `law_`.

| Module | Contents |
| --- | --- |
| `protocol`, `json`, `base64_payload` | Messages, envelopes and their encodings |
| `signaling` | Requests to the signaling service and the advertisement stream |
| `rtc` | Connection settings, ICE candidates and the data channel |
| `egress`, `relay` | The tunnel to the egress and the relay over it |
| `peer_proxy`, `peer_watch` | One session of a peer proxy, and what is reported about its consumer |
| `supervisor`, `settings` | Retries with backoff, pools, and what the environment sets |
| `consumer` | Finding a peer, a session through it, and the supervision of sessions |
| `consumer_path`, `virtual_udp`, `queue` | Peer paths and the socket above them |
| `consumer_quic`, `consumer_socks5` | Accepting connections, opening streams and routing them |
| `addr`, `duration`, `text` | Addresses, spans of time, lists and numbers |

`tests/` runs the library from outside. `app/` is the peer proxy program and the transports: HTTP,
WebSocket, WebRTC and QUIC.

## Running a peer proxy

```sh
UNBOUNDED_FREDDIE_ENDPOINT=http://localhost:9000/v1/signal \
UNBOUNDED_EGRESS_URL=ws://localhost:8000/ws \
UNBOUNDED_STUN_URLS=stun:stun.example.org:3478 \
peer-proxy
```

| Variable | Default | Purpose |
| --- | ---: | --- |
| `UNBOUNDED_CONCURRENT_SESSIONS` | 5 | Independent consumer slots |
| `UNBOUNDED_NAT_TIMEOUT_SECONDS` | 10 | Time allowed for the data channel to open |
| `UNBOUNDED_RETRY_INITIAL_SECONDS` | 1 | First retry delay |
| `UNBOUNDED_RETRY_MAX_SECONDS` | 30 | Longest retry delay, jitter included |
| `UNBOUNDED_STABLE_SESSION_SECONDS` | 30 | Session duration that resets the backoff |
| `UNBOUNDED_COVERT_DTLS` | unset | `disable`, `0`, `false`, `no` or `off` switches randomization off |
| `UNBOUNDED_ENABLE_IPV6` | unset | `1`, `true`, `yes` or `on` gathers IPv6 candidates |

The published WebRTC stack has no hook for outgoing ClientHello messages, so the program cannot apply
`UNBOUNDED_COVERT_DTLS` to them yet. `ApiSettings::client_hello` is what such a hook would apply.
