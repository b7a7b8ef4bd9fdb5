pub mod api;
pub mod schedules;
pub mod welcome;
