//! Rules of a small "dodge the monsters" arcade game, kept apart from the
//! engine that renders it: the names of the nodes each game object expects,
//! what each object does on each engine event, the score and its text, and
//! how the player's sprite follows its velocity.
pub mod enemy;
pub mod hud;
pub mod main_scene;
pub mod player;
