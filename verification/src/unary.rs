/*!
Unary quantity functions: each maps a list of influencing factors to one
dimensional value by applying a magnitude formula to at most one matched
input, and derives its influencing-factor unit and output unit from its own
coefficients.
*/

pub mod exponential;
pub mod first_order_taylor;
pub mod linear;
pub mod polynomial;

pub use exponential::{ExpTerm, Exponential};
pub use first_order_taylor::FirstOrderTaylor;
pub use linear::Linear;
pub use polynomial::Polynomial;
