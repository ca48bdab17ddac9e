pub mod dam_obstacle;
pub mod obstacle_trait;
pub mod rectangle_obstacle;
