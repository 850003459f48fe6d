pub mod file_gui;
pub mod gui_lyrics;
pub mod gui_main;
pub mod playlist;
pub mod song;
pub mod text;
