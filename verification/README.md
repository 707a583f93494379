# Universal Commerce Protocol (UCP) plugin

A commerce plugin for the MCPG gateway, written and verified in Verus. When a purchasing tool is
called, it discovers the merchant, checks that the merchant offers what the tool requires, opens a
checkout at an endpoint that the operator allows, and demands payment. The call goes through once
the merchant reports the checkout completed.

## Layout

- `src/` is the verified library. `plugin.rs` decides what is done for a call, step by step;
  `discovery.rs` judges merchant profiles and endpoints; `checkout.rs` holds checkout sessions;
  `merchant.rs` builds requests and reads replies; `config.rs` holds the operator's settings;
  `host.rs` what passes between plugin and gateway; `json.rs` JSON values; `tables.rs`, `clock.rs`,
  `text.rs` and `assoc.rs` what these are built on. `laws.rs` states and proves what holds of the
  plugin as a whole.
- `app/` is ordinary Rust around it: requests over HTTP, the configuration as it is written, logs and
  metrics, and the gateway's traits.
- `tests/` runs the library.

## What is taken on trust

Contracts are proved except for calls that leave the library: `url::Url::parse`, the notation of a
`serde_json::Value` and the copy of a `serde_json::Number`, the `dashmap::DashMap` that sessions and
profiles are kept in, the system's clock (`Instant::now`, `Instant::elapsed`), the conversions
`Duration::as_nanos` and `Duration::from_millis`, and `str::to_ascii_lowercase`. Each of these stands
behind one small item whose comment says what is claimed of it.

The notation of an object is taken to depend on its members and not on their order. That holds as
long as `serde_json` is built without its `preserve_order` feature.
