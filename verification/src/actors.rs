pub mod fetcher;
pub mod id_gen;
pub mod rbac;
