//! The two persistent records and their byte-exact layouts.
pub mod contributor;
pub mod fundraiser;

pub use contributor::Contributor;
pub use contributor::ContributorView;
pub use fundraiser::FundRaiser;
pub use fundraiser::FundRaiserView;
