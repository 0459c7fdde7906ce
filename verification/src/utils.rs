pub mod patterns;
