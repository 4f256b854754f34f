# earbuds

Verified logic for wireless earbuds on Linux: the hi-res microphone of AirPods
and the version queries of devices by Nothing.

- `src/` is the library, in Verus. `src/bluetooth/` takes audio SDUs apart,
  `src/audio/` decides when a capture runs, how it is started and stopped and
  what becomes of decoded audio, `src/devices/` reads what devices answer and
  keeps the list of devices.
- `tests/` runs the library on concrete values.
- `app/` is ordinary Rust around it: the codec (libavcodec), the tasks and
  threads, and whatever is floating point. It reaches the sound server, the
  Bluetooth links and the settings through the traits in `app/services.rs`.
