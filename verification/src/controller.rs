pub mod joypad;
