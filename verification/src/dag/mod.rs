pub mod dag;
pub mod merkletree;
pub mod peers;
