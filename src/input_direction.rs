use eframe::egui;
use vstd::prelude::*;

verus! {

#[verifier::external_type_specification]
#[verifier::external_body]
pub struct ExColor32(egui::Color32);

/// The order in which the player must enter the sequence.
#[derive(Debug, Clone, Copy, PartialEq, Eq, Structural)]
pub enum InputDirection {
    Forward,
    Reverse,
}

/// Relies on egui::Color32::from_rgb: an opaque colour from three channels.
#[verifier::external_body]
fn color_from_rgb(r: u8, g: u8, b: u8) -> egui::Color32 {
    egui::Color32::from_rgb(r, g, b)
}

impl InputDirection {
    /// The red, green and blue channels of the direction's display colour.
    pub fn rgb(&self) -> (r: (u8, u8, u8))
        ensures
            *self == InputDirection::Forward ==> r == (0u8, 150u8, 255u8),
            *self == InputDirection::Reverse ==> r == (255u8, 100u8, 100u8),
    {
        match self {
            InputDirection::Forward => (0, 150, 255),
            InputDirection::Reverse => (255, 100, 100),
        }
    }

    /// The display colour, built from the channels that `rgb` gives.
    pub fn color(&self) -> egui::Color32 {
        let (r, g, b) = self.rgb();
        color_from_rgb(r, g, b)
    }

    pub fn short_name(&self) -> (r: &str)
        ensures
            *self == InputDirection::Forward ==> r@ == "FORWARD"@,
            *self == InputDirection::Reverse ==> r@ == "REVERSE"@,
    {
        match self {
            InputDirection::Forward => "FORWARD",
            InputDirection::Reverse => "REVERSE",
        }
    }
}

} // verus!
