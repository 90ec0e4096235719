pub mod game;
pub mod idt;
pub mod keyboard;
pub mod screen;
