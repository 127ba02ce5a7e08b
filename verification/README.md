# heatbed_controller

Firmware for an ESP32 heat bed controller, split in two.

- `src/` is the verified library: event identifiers of the event loop
  (`events`), MCP3008 request framing and reply decoding (`mcp3008`), the
  controller's reaction to events (`controller`), the layout of the status
  screen (`display`), the choice of Wi-Fi channels after a scan (`wifi`) and
  the thermistor's divider leg (`thermistor`).
- `app/` is the firmware around it: board bring-up, SPI transfers, the
  sampling thread with its floating-point filter and thermistor model,
  drawing, and Wi-Fi.
- `tests/` runs the library on concrete values.
