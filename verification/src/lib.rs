//! Single-owner handles to the serial peripherals of an EFR32 radio
//! microcontroller, and the decisions that its serial and SPI drivers take.
//!
//! The registers and the vendor's libraries are reached by whoever links
//! them. What is decided around them is decided here: that the peripherals
//! are handed out once, what each peripheral is initialised with, when a
//! serial operation goes ahead and when it would block, which transfers an
//! SPI takes on, and what a status code means.
//!
//! A driver never touches the hardware itself. Each operation takes what the
//! hardware showed, a status register or a status code, and answers with a
//! result or with the one order that is to be carried out on the hardware.
//! An operation that is refused gives no order.

pub mod leuart;
pub mod peripherals;
pub mod usart;
