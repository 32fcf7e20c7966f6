# kalshi_trade_rs

Client-side logic for the Kalshi trading API, verified with Verus.

## Layout

- `src/` — the verified library.
  - `models/` — request parameters, request bodies and response records of
    the REST API; query strings are built and encoded with exact contracts.
  - `orderbook/` — price ladders, the orderbook of one market (snapshots,
    deltas, best bids and asks, spreads, liquidity) and the aggregator of
    many markets, with the feed step that applies each streamed event.
  - `ws/` — the streaming protocol: channels, the JSON text of commands,
    the classification of received messages, the bookkeeping of pending
    requests and subscriptions, connection health and backoff.
  - `json.rs` — JSON values as the library reads them.
  - `text.rs` — decimal rendering and string helpers used by the contracts.
- `tests/` — tests of the library.
- `app/` — the runtime around the library: the WebSocket session task and
  its handles (tokio, tokio-tungstenite), JSON reading and writing (serde),
  the shared aggregator with its broadcast channels, and the amounts in
  dollars (floating point).
