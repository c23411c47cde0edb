# pumpfun-sniper

The verified core of a Solana launch watcher, written in Verus.

- `src/` is the library: configuration checks (`config`), the commitment
  setting and the RPC start-up report (`network`), qualification of decoded
  creation events (`qualifier`), the websocket watcher's bookkeeping
  (`watcher`), artifact naming and log filtering (`decoder`), the wallet's
  short key (`wallet`), the start-up state (`state`), errors (`errors`), the
  shared text helpers (`text`) and the clock (`clock`). The library's own
  functions carry contracts that Verus proves; the few functions that call
  std or solana code directly carry contracts that are trusted, each with a
  doc comment saying what it claims. The laws of the library are proof
  functions beside the code they speak of.
- `app/` is the program around it: reading files, parsing TOML and JSON,
  the websocket and HTTP calls, logging, and the async tasks.
- `tests/` exercises the library on concrete values.

The decoded-event vocabulary in `decoder` (`DecodedEventKind`,
`MayhemStatus`, `DecodeConfidence`, the fields of `DecodedMayhemEvent` and
the words their `as_str` give), the watcher's configuration section
(`WatcherConfig` and the types below it), `WalletConfig::mode` and the
`WalletError::Parse` variant are this crate's own choices, made to fit how the
qualifier, the watcher and the start-up code read them. Times are signed
nanoseconds since the Unix epoch (`clock`), so that the watcher's and the
qualifier's decisions can be stated and proved over plain integers.
