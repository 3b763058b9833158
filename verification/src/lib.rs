#![allow(non_snake_case)]

pub mod controller;
pub mod cpu;
pub mod debug;
pub mod dma;
pub mod enums;
pub mod evaluation;
pub mod gamepad;
pub mod header;
pub mod instructions;
pub mod joy;
pub mod loadstore;
pub mod mapper;
pub mod mem;
pub mod nes;
pub mod opcodes;
pub mod ppu;
pub mod scroll;
pub mod utils;
