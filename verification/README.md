# thur_storage

The storage core of a virtual tape library and a virtual storage appliance: a
content-addressed chunk pool on local disk in front of an object store, with the policy
that holds the two together. The decisions are written in Rust with contracts that Verus
proves; the file system, the network and the metric exporters stand around them as ordinary
Rust.

## Layout

`src/` is the verified library.

| Modules | What they decide |
| --- | --- |
| `pool`, `pool_laws`, `hash`, `pins` | addresses of chunks, sealing and listing them, pins that keep them |
| `budget`, `disk_cache_size`, `ghost` | how much of the disk the pool may use, who waits, what was evicted lately |
| `objects`, `compression`, `helpers` | how chunks are stored and read back, listings, retries |
| `s3`, `azure`, `gcs`, `local`, `lock` | what each provider is asked and what its replies and failures mean |
| `caching`, `caching_laws`, `lru_model` | the cache of uploaded and present keys, one upload per key at a time |
| `config`, `config_error`, `backend_check`, `failure`, `error` | configuration, reachability checks, classes of failure |
| `telemetry`, `instruments`, `live_stats`, `record` | metrics and live counters |
| `text`, `scan`, `table` | strings and name tables |

Functions named `law_` state what holds across calls: that a cached upload never outlives a
deletion, that a chunk reads back as it was stored, that the budget keeps its cap, that
identical bytes are stored once.

What the library takes from outside crates (LZ4, Zstandard, BLAKE3, the LRU map, hexadecimal
text, random numbers, URLs, JSON, gRPC metadata) goes through small wrappers whose contracts are assumed;
each wrapper's comment says what is assumed of which function.

`app/` is the runtime: object stores over the providers' SDKs, the pool's files, the waiting
threads of the budget, the configuration file, the metric exporters and the `/metrics` handler.

`tests/` runs the library on concrete values.
