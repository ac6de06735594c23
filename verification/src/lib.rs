//! Verified CPU cores and configuration types for a multi-console emulator.
pub mod bit_facts;
pub mod gb_config;
pub mod gba_config;
pub mod genesis_config;
pub mod huc6280;
pub mod input;
pub mod m68000;
pub mod mos6502;
pub mod nes_config;
pub mod pce_config;
pub mod sh2;
pub mod smsgg_config;
pub mod snes_config;
pub mod spc700;
pub mod text;
pub mod arm7tdmi;
