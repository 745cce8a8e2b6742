pub mod color;
pub mod fixed;
pub mod light;
pub mod material;
pub mod matrix;
pub mod ray;
pub mod tuple;
pub mod world;
