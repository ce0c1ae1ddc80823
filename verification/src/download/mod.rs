//! Download tasks: song information, target paths, lyric files, tags, and the opening of
//! the target file.

pub mod audio_tags;
pub mod task;
pub mod task_file;
pub mod task_lrc;
pub mod task_metadata;
pub mod task_path;
