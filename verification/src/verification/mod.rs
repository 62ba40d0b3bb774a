pub mod axiom_checker;
pub mod zkml;
