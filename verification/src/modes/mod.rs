pub mod clock;
pub mod pomodoro;
