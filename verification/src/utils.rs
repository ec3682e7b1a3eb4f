pub mod numerics;
