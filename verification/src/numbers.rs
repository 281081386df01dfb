pub mod prim;
pub mod uint_range;
pub mod range_model;
pub mod text;
pub mod validated;
