pub mod mesh;
pub mod nufx;
pub mod skel;
