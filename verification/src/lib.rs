//! The size of the terminal behind standard output, decided from what the
//! terminal driver and the environment said.
//!
//! The caller asks the system and hands over what it learned: the driver's
//! window size report where standard output is a terminal, and the values of
//! `COLUMNS` and `LINES`. Every decision on those is taken here.

pub mod decimal;
pub mod device;
pub mod dispatch;
pub mod environment;
pub mod size;

pub use decimal::parse_u16;
pub use device::{terminal_size_using_fd, WinSize};
pub use dispatch::{consults_environment, terminal_size};
pub use environment::{
    count_from_value, terminal_size_using_env, MalformedEnvironmentValue, COLUMNS, LINES,
};
pub use size::{Height, Width};
