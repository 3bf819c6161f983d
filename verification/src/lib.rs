//! A capture-and-decode engine for raw link-layer frames.
//!
//! The engine observes a network interface for a bounded window of time and
//! reports, for each frame, its size and what its Ethernet header and IPv4
//! addresses say. It performs no input or output itself: a driver makes the
//! calls of the operating system and reads the clock, and the engine decides.
//!
//! The modules follow a frame through a session:
//!
//! - [`source`]: how a capture source is opened, and what it hands back;
//! - [`raw_socket`]: the raw-socket source, call by call;
//! - [`frame`]: one captured frame;
//! - [`decoder`]: the fields of a frame, read safely from bytes of any length;
//! - [`deadline`]: the end of the observation window;
//! - [`capture_loop`]: the loop as a state machine, with its counter;
//! - [`session`]: whole sessions, and the laws that hold of all of them;
//! - [`text`]: the text forms of decoded fields.

pub mod capture_loop;
pub mod deadline;
pub mod decoder;
pub mod frame;
pub mod raw_socket;
pub mod session;
pub mod source;
pub mod text;
