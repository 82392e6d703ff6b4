//! Verified control logic for a PLC-driven heater service.
//!
//! The library holds the pure, verified parts of the service: the
//! temperature scaler, the safety interlock decision, the fixed-point
//! PID regulator, the duty-cycle scheduler, the control-loop supervisor
//! state machine, the dual-rate coordinator's tick computations, and the
//! register/bit manipulation behind the HTTP handlers. All temperatures
//! are carried in hundredths of a degree Celsius and all power levels in
//! hundredths of a percent, so that every computation is exact integer
//! arithmetic. Field-bus I/O, HTTP routing and serialization live outside
//! the library and hand it plain values.

pub mod analog_read;
pub mod bits;
pub mod block_read;
pub mod connection;
pub mod control_loop;
pub mod control_state;
pub mod coordinator;
pub mod digital_read;
pub mod duty_cycle;
pub mod fault_text;
pub mod interlock;
pub mod output_write;
pub mod pid_regulator;
pub mod plc_status;
pub mod remote_read;
pub mod scale;
pub mod supervisor;

