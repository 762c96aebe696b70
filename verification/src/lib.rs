//! The verified core of a terminal music player: its pages, popups, prompts, palettes, queues and
//! the rules it plays songs by.
pub mod pagination;
pub mod text;
pub mod title;
pub mod text_input;
pub mod popup;
pub mod prompt;
mod clock;
pub mod tasks;
pub mod notices;
pub mod login;
pub mod seqs;
pub mod wrap;
pub mod command;
pub mod page;
pub mod settings;
pub mod song;
pub mod source;
pub mod queue;
pub mod lyrics;
pub mod exclusive;
pub mod markup;
pub mod avatar;
pub mod mv;
pub mod nav;
pub mod navigation;
pub mod artist;
pub mod cells;
pub mod scan;
pub mod seek;
pub mod search;
pub mod ring;
pub mod pitch;
pub mod geometry;
pub mod playerbar;
pub mod lyrics_panel;
pub mod player;
pub mod disc;
pub mod resample;
