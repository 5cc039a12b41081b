//! Game rules of a side-scrolling flying game: the game manager's state
//! machine, the menu layer, the obstacle and grape spawners, the grapes, the
//! despawn area and the player. The engine side (scenes, nodes, audio,
//! floating-point motion) performs the commands that these return.

pub mod decimator;
pub mod game_manager;
pub mod grape;
pub mod menu;
pub mod obstacles;
pub mod player;
