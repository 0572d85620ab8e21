//! Decision logic of a mesh VPN daemon.
//!
//! - [`pmtu`] searches for the path MTU to each node; [`rounding`] and
//!   [`natural`] compute its probe sizes exactly, [`clock`] holds its time.
//! - [`route`] decides what becomes of a packet, with [`broadcast`], [`mac`],
//!   [`dns`] and [`pcap`] for what concerns them, over the tables in
//!   [`daemon`].
//! - [`keys`] finds Ed25519 keys and [`hosts`] keeps host configurations, over
//!   the byte-string paths of [`paths`].
//!
//! Nothing here does input or output. Functions return what to do next, and
//! take what came of it. What each does to the fields it is given stands in
//! [`search_laws`], [`delivery_laws`], [`spread_laws`] and [`file_laws`]; what
//! holds of several of them together in [`pmtu_laws`], [`route_laws`] and
//! [`key_laws`].
pub mod broadcast;
pub mod clock;
pub mod daemon;
pub mod delivery_laws;
pub mod dns;
pub mod file_laws;
pub mod hosts;
pub mod key_laws;
pub mod keys;
pub mod mac;
pub mod natural;
pub mod paths;
pub mod pcap;
pub mod pmtu;
pub mod pmtu_laws;
pub mod rounding;
pub mod route;
pub mod route_laws;
pub mod search_laws;
pub mod spread_laws;
