pub mod collections;
pub mod game_utils;
pub mod snake;
pub mod game;
pub mod compass;
pub mod roulette;
pub mod rtc;
pub mod pwm;
pub mod keypad;
pub mod signals;
pub mod whack;
pub mod serial;
