pub mod controller;
pub mod locker;
pub mod nexus;
