//! A CHIP-8 / SUPER-CHIP / XO-CHIP interpreter core: the bit-plane video
//! memory and the instruction engine that drives it.

pub mod cpu;
pub mod dialog_handler;
pub mod display;
pub mod emulator;
pub mod gui;
pub mod rom_downloader;
pub mod sound;
pub mod video_memory;
