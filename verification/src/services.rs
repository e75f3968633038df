pub mod twitch;
pub mod youtube;
