//! Forward-mode automatic differentiation on dual numbers.
//!
//! A dual number carries a value together with its partial derivatives with
//! respect to `N` independent variables, and every arithmetic operation
//! propagates the derivatives by the rules of calculus. [`Tin`] tracks the
//! gradient, [`Value`] the gradient and the Hessian. The scalar type is `i64`;
//! the vector and matrix arithmetic is done by `nalgebra`.
pub mod model;
pub mod linalg;
pub mod scalar;
pub mod laws;
pub mod value;
pub mod tin;
pub mod compare;

pub use tin::Tin;
pub use value::Value;
