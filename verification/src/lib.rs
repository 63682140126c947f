//! Logic of the `.prtgn` command-line tool: file naming, the text form of
//! converted audio, command dispatch, and the state machines behind its
//! terminal screens.

pub mod audio_text;
pub mod decimal;
pub mod text;
pub mod convert;
pub mod flac;
pub mod wav;
pub mod init;
pub mod player;
pub mod fox;
pub mod wiki;
pub mod command;
pub mod about;
