//! CSS rules for gradients between two colours.
//!
//! A gradient is chosen by its kind (linear, radial or conic), a direction in
//! quarter turns and two colours. [`gradient::gradient_css`] writes the style
//! rule that paints it onto the `.gradient-box` element; every function states
//! the exact text it returns.

pub mod decimal;
pub mod gradient;

pub use decimal::decimal_string;
pub use gradient::{conic_start_degree, degree, gradient_css, gradient_head, GradientType};
