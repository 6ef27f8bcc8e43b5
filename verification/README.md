# dcc_tool

A test tool for DCC field devices. Devices connect over TCP, send heartbeat
frames that list their I/O points, and accept commands for their outputs.

- `src/` is the verified library (Verus):
  - `model/wire.rs`: big-endian integers on the wire, appended with `bytes`;
  - `model/checksum.rs`: the CRC-16/MODBUS checksum, computed with `crc`;
  - `model/io.rs`: I/O points and the parser of a heartbeat's point list;
  - `model/packet.rs`: headers, bodies, frame encoding, command packets;
  - `model/dcc.rs`: frame decoding, heartbeat replies, command frames, the
    state kept of a device;
  - `model/laws.rs`: what decoding gives back of an encoded packet;
  - `backend/`: messages between the window and the backend, and the
    backend's routing decision.
- `app/` is the program: the TCP listener, the per-device connection loops,
  the egui window, and the floating-point scaling of analog values.
- `tests/` runs the library on the frames of real devices and on
  hand-computed frames.
