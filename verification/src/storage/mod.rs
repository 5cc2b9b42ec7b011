pub mod internal;
