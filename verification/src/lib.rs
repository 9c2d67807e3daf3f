//! Sans-I/O core of a polling I2C bus master for an STM32F3-class
//! microcontroller.
//!
//! Nothing here touches hardware. Bring-up is computed as a list of register
//! accesses, and a transfer is a state machine that is told what each
//! register access returned and answers with the next access to perform. The
//! caller owns the peripheral and carries the accesses out:
//!
//! 1. make a [`driver::I2cMaster`] and carry out
//!    [`driver::I2cMaster::bring_up`] once;
//! 2. for each transfer, take a [`transaction::Transaction`] from
//!    [`driver::I2cMaster::read`] or [`driver::I2cMaster::write`] and call
//!    [`transaction::Transaction::step`] until it answers
//!    [`transaction::Action::Finished`].
//!
//! A transfer programs control register 2 for its address phase either by
//! read-modify-write, keeping the bits it does not own, or, when taken from
//! [`driver::I2cMaster::read_storing`] or
//! [`driver::I2cMaster::write_storing`], by storing the register whole.
//!
//! Every wait of a transfer is bounded by a poll budget, so a transfer ends
//! whatever the device does.

pub mod bits;
pub mod clock;
pub mod controller;
pub mod driver;
pub mod pin;
pub mod registers;
pub mod timing;
pub mod trace;
pub mod transaction;
