//! A cycle-stepped core for the monochrome 8-bit handheld (DMG): CPU, memory bus,
//! pixel unit, timer, serial link, joypad and cartridge mappers, each with a
//! mathematical model and machine-checked contracts.

pub mod apu;
pub mod bios;
pub mod cart;
pub mod cpu;
pub mod gb;
pub mod joypad;
pub mod mmu;
pub mod ppu;
pub mod serial;
pub mod system;
pub mod timer;
