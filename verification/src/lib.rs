//! Verified core of a heat bed controller: the event identifiers of its
//! event loop, the MCP3008 ADC command and reply framing, the controller's
//! reaction to events, the layout of its status display and the choice of
//! Wi-Fi channels.

pub mod events;
pub mod mcp3008;
pub mod controller;
pub mod display;
pub mod wifi;
pub mod thermistor;
