pub mod crosstalk;
pub mod field;
pub mod noise;
pub mod rng;
pub mod seed;
pub mod settings;
pub mod shift;
pub mod speckle;
