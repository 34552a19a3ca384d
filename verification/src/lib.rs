//! Protocol and orchestration core of a cellular/GNSS tracker: framing of the
//! modem's byte stream, decoding of unsolicited notifications, the attach and
//! session state machines, validation of position fixes and the
//! store-and-forward delivery queue.
pub mod acc;
pub mod adxl345;
pub mod command;
pub mod delivery;
pub mod digester;
pub mod drv;
pub mod general;
pub mod gnss;
pub mod gnss_cmds;
pub mod modem;
pub mod mqtt_cmds;
pub mod mqtt_types;
pub mod msg;
pub mod net;
pub mod net_cmds;
pub mod nmea;
pub mod resps;
pub mod storage;
pub mod systime;
pub mod temp;
pub mod text;
pub mod urc;
