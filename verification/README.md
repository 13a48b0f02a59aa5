# thingblock-link

The helper between the ThingBlock editor and the hardware. It translates the editor's WebSocket
envelopes into calls of an `arduino-cli` daemon (compile, upload, serial monitor, boards platforms)
and of a BLE radio, and serves the resource packs. A second program, the compile server, does the
same for compiles alone, over HTTP.

## Layout

- `src/` is the library, written in Verus: every decision that the programs make, with its contract
  and proof.
  - `server/` holds the envelope, the batching of streamed text, the session and the HTTP answers.
  - `service/arduino/` holds what each request leads to (`bridge`), the daemon's start (`daemon`) and
    the daemon's messages (`grpc`).
  - `service/ble/` holds the BLE channel, which shares nothing with the flash channel.
  - `service/resource.rs` holds the containment of pack references in the resource root.
  - `ui/`, `cloud/` and `utils/` hold the tray, the compile server and the scratch directories.
  - `outside.rs` holds every call into another crate, with what is taken on trust about it.
- `app/` is the two programs: sockets, processes, files, the radio and the tray. It performs what
  the library decides and hands back what came of it.
- `tests/` runs the library on concrete values.

## What is proved

Besides the contract of each function, the library states laws over whole runs. Among them: a
request gets one terminal reply, as its last word; batching loses, doubles and reorders no text;
nothing outside the resource root is resolved; a partial image set is never flashed; the release of
a replaced BLE scan stops nothing; and only Quit stops the helper.
