//! Decision logic of the LTBox firmware tool: what each device workflow
//! decides from the values it has read, stated and proved with Verus.
//! The device I/O itself lives outside this library.

pub mod advanced;
pub mod country;
pub mod country_run;
pub mod device;
pub mod flash;
pub mod flash_run;
pub mod loader;
pub mod model;
pub mod rollback;
pub mod root;
pub mod root_run;
pub mod simple_runs;
pub mod rescue_run;
pub mod sysupdate;
pub mod text;
pub mod transfer;
pub mod ui;
pub mod writes;
