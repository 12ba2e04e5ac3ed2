//! Rendering stack of a small digital clock: glyph decoders, tile rendering
//! routines and the driver that turns them into the command and data bytes
//! of a monochrome, tile-addressed OLED controller.

pub mod bcdtime;
pub mod clockmain;
pub mod ds3231;
pub mod graphics;
pub mod record;
pub mod simulator;
pub mod ssd1322;
pub mod word;
