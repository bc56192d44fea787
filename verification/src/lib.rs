//! Running statistical moments and fixed-window rolling means.
//!
//! The crate is generic over the numeric width of the observations: a caller
//! picks one width up front by choosing a [`Scalar`] implementation, and no
//! operation here ever converts between widths.

pub mod aggregate;
pub mod numeric;
pub mod rolling;

pub use aggregate::mean_and_variance;
pub use aggregate::ExistingAggregate;
pub use numeric::Scalar;
pub use rolling::rolling_mean;
