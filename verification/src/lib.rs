pub mod characters;
pub mod dice_roll;
pub mod english;
pub mod flarum;
pub mod language;
pub mod llm;
pub mod numbers;
pub mod orchestrator;
pub mod portuguese;
