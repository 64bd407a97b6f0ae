pub mod onboarding;
pub mod practice;
pub mod settings;
pub mod tts;
