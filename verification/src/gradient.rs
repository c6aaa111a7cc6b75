//! The gradient kinds and the style rule that paints a gradient.

use vstd::prelude::*;
use vstd::std_specs::convert::FromSpecImpl;

use crate::decimal::{decimal_digits, decimal_string};

verus! {

/// The CSS gradient function that a rule is written with.
#[derive(Debug, Copy, Clone, PartialEq, Eq, Structural)]
pub enum GradientType {
    Linear,
    Radial,
    Conic,
}

/// The gradient kind that a selector index stands for: index 1 stands for the
/// radial gradient and index 2 for the conic one; every other index, 0 among
/// them, stands for the linear gradient.
pub open spec fn kind_of_index(index: u32) -> GradientType {
    if index == 1 {
        GradientType::Radial
    } else if index == 2 {
        GradientType::Conic
    } else {
        GradientType::Linear
    }
}

impl FromSpecImpl<u32> for GradientType {
    open spec fn obeys_from_spec() -> bool {
        true
    }

    open spec fn from_spec(value: u32) -> Self {
        kind_of_index(value)
    }
}

impl From<u32> for GradientType {
    /// Reads a selector index as a gradient kind, [`kind_of_index`].
    fn from(value: u32) -> (kind: Self) {
        match value {
            1 => GradientType::Radial,
            2 => GradientType::Conic,
            _ => GradientType::Linear,
        }
    }
}

impl GradientType {
    /// Whether a gradient of this kind has a direction. A radial gradient has
    /// none, so a direction selector has nothing to offer while it is chosen.
    pub fn uses_direction(self) -> (used: bool)
        ensures
            used == (self != GradientType::Radial),
    {
        match self {
            GradientType::Radial => false,
            _ => true,
        }
    }
}

/// The angle, in degrees, of a direction given in quarter turns.
pub open spec fn degree_of(direction_step: u8) -> nat {
    direction_step as nat * 90
}

/// The angle that a conic gradient starts from so that it points where a
/// linear gradient of `degree` points: the multiples of a half turn are
/// turned by another half turn, all other angles are kept.
pub open spec fn conic_start_of(degree: nat) -> nat {
    if degree % 180 == 0 {
        degree + 180
    } else {
        degree
    }
}

/// The opening of the gradient function, up to and including the comma that
/// ends the direction where the kind has one.
pub open spec fn gradient_head_text(kind: GradientType, direction_step: u8) -> Seq<char> {
    match kind {
        GradientType::Linear => "linear-gradient("@ + decimal_digits(degree_of(direction_step))
            + "deg,"@,
        GradientType::Radial => "radial-gradient("@,
        GradientType::Conic => "conic-gradient(from "@ + decimal_digits(
            conic_start_of(degree_of(direction_step)),
        ) + "deg,"@,
    }
}

/// The style rule that paints the gradient from `color_one` to `color_two`
/// onto the `.gradient-box` element.
pub open spec fn gradient_css_text(
    kind: GradientType,
    direction_step: u8,
    color_one: Seq<char>,
    color_two: Seq<char>,
) -> Seq<char> {
    ".gradient-box {background: "@ + gradient_head_text(kind, direction_step) + " "@ + color_one
        + ", "@ + color_two + ");}"@
}

/// Computes the angle of a direction given in quarter turns.
pub fn degree(direction_step: u8) -> (angle: u16)
    ensures
        angle == degree_of(direction_step),
{
    let step: u16 = direction_step as u16;
    step * 90
}

/// Computes the angle that a conic gradient starts from for a direction given
/// in quarter turns.
pub fn conic_start_degree(direction_step: u8) -> (angle: u16)
    ensures
        angle == conic_start_of(degree_of(direction_step)),
{
    let angle: u16 = degree(direction_step);
    if angle % 180 == 0 {
        angle + 180
    } else {
        angle
    }
}

/// Writes the opening of the gradient function for `kind` and a direction of
/// `direction_step` quarter turns.
pub fn gradient_head(kind: GradientType, direction_step: u8) -> (head: String)
    ensures
        head@ == gradient_head_text(kind, direction_step),
{
    match kind {
        GradientType::Linear => {
            let mut head = String::from_str("linear-gradient(");
            head.append(decimal_string(degree(direction_step)).as_str());
            head.append("deg,");
            head
        },
        GradientType::Radial => String::from_str("radial-gradient("),
        GradientType::Conic => {
            let mut head = String::from_str("conic-gradient(from ");
            head.append(decimal_string(conic_start_degree(direction_step)).as_str());
            head.append("deg,");
            head
        },
    }
}

/// Writes the style rule that paints the gradient of `kind` and
/// `direction_step` from `color_one` to `color_two`. The colours are given as
/// CSS colour values and stand in the rule as they are.
pub fn gradient_css(
    kind: GradientType,
    direction_step: u8,
    color_one: &str,
    color_two: &str,
) -> (css: String)
    ensures
        css@ == gradient_css_text(kind, direction_step, color_one@, color_two@),
{
    let mut css = String::from_str(".gradient-box {background: ");
    css.append(gradient_head(kind, direction_step).as_str());
    css.append(" ");
    css.append(color_one);
    css.append(", ");
    css.append(color_two);
    css.append(");}");
    css
}

/// Every selector index other than 1 and 2 stands for the linear gradient.
pub proof fn lemma_other_index_is_linear(index: u32)
    requires
        index != 1,
        index != 2,
    ensures
        kind_of_index(index) == GradientType::Linear,
{
}

/// A direction is of use for every selector index but 1, the index of the
/// radial gradient.
pub proof fn lemma_direction_used_unless_index_one(index: u32)
    ensures
        (kind_of_index(index) != GradientType::Radial) <==> index != 1,
{
}

/// A radial gradient opens with `radial-gradient(` whatever the direction, so
/// two rules that differ in the direction alone are the same rule.
pub proof fn lemma_radial_ignores_direction(
    step_a: u8,
    step_b: u8,
    color_one: Seq<char>,
    color_two: Seq<char>,
)
    ensures
        gradient_head_text(GradientType::Radial, step_a) == "radial-gradient("@,
        gradient_css_text(GradientType::Radial, step_a, color_one, color_two) == gradient_css_text(
            GradientType::Radial,
            step_b,
            color_one,
            color_two,
        ),
{
}

/// A conic gradient turns the vertical directions, the even quarter turns, by
/// a half turn and keeps the horizontal ones, the odd quarter turns.
pub proof fn lemma_conic_turns_vertical_only(direction_step: u8)
    ensures
        direction_step % 2 == 0 ==> conic_start_of(degree_of(direction_step)) == degree_of(
            direction_step,
        ) + 180,
        direction_step % 2 == 1 ==> conic_start_of(degree_of(direction_step)) == degree_of(
            direction_step,
        ),
{
}

/// Writing the rule again for the same kind, direction and colours gives the
/// same text again: any two texts that [`gradient_css`] may return for them
/// are equal.
pub proof fn lemma_rule_is_repeatable(
    kind: GradientType,
    direction_step: u8,
    color_one: Seq<char>,
    color_two: Seq<char>,
    first: Seq<char>,
    second: Seq<char>,
)
    requires
        first == gradient_css_text(kind, direction_step, color_one, color_two),
        second == gradient_css_text(kind, direction_step, color_one, color_two),
    ensures
        first == second,
{
}

/// The rule depends on nothing but the kind, the direction and the characters
/// of the two colours: where these agree, the rules agree.
pub proof fn lemma_rule_depends_on_inputs_only(
    kind_a: GradientType,
    step_a: u8,
    one_a: &str,
    two_a: &str,
    kind_b: GradientType,
    step_b: u8,
    one_b: &str,
    two_b: &str,
)
    requires
        kind_a == kind_b,
        step_a == step_b,
        one_a@ == one_b@,
        two_a@ == two_b@,
    ensures
        gradient_css_text(kind_a, step_a, one_a@, two_a@) == gradient_css_text(
            kind_b,
            step_b,
            one_b@,
            two_b@,
        ),
{
}

} // verus!
