//! Pathfinding over the abstract map: the A* search engine.

pub mod astar;
