# ak500s_mac

Driver for the screen of the DeepCool AK500S DIGITAL CPU cooler on macOS,
with its logic verified in Verus.

- `src/` — the verified library:
  - `protocol` — the 64-byte HID report (standard and SE layouts);
  - `config` — the `key=value` config file, command-line precedence, the
    config path;
  - `api` — the local API's requests, the shared state, the TTL of
    published frames;
  - `runner` — what the display loop sends on each refresh, auto mode;
  - `device` — picking the display among HID devices;
  - `sensor::temp` — SMC key probing, the two-call key read, decoding of
    `sp78`/`flt `/`fpe2` readings;
  - `cli` — option values and reply exit codes of the command line;
  - `text` — trimming, searching and number parsing over characters.
- `app/` — the program around it: command line (clap), sockets and JSON
  (serde_json), HID I/O (hidapi), CPU usage (sysinfo), the SMC FFI, and the
  float arithmetic of temperatures and usage.
- `tests/` — tests of the library.
