// Protocol engine of a client for the Apple Notification Center Service
// (ANCS), a Bluetooth Low Energy GATT profile that streams phone
// notifications to a paired accessory.
//
// Everything here works on plain values: the radio, the D-Bus session and the
// operator prompt are driven by the program that embeds this library.

pub mod command;
pub mod connection;
pub mod error;
pub mod event;
pub mod orchestrator;
pub mod pairing;
pub mod resolver;
pub mod store;
pub mod uuids;
pub mod wire;
