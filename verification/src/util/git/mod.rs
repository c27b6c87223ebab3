pub mod lfs;
