//! Building blocks of a bootable disk image and of a test harness for kernels
//! run in an emulator: the kernel info block, the image layout, the emulator's
//! exit-code protocol, and the decisions of the test runner.

pub mod image;
pub mod info_block;
pub mod protocol;
pub mod runner;
pub mod text;
