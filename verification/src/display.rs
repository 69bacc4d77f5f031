//! A display: one output's name and rectangle, and the operations on it.

use vstd::prelude::*;
use vstd::string::StringExecFns;
use crate::decimal::{append_decimal, decimal};
use crate::error::ArrangeError;
use crate::orientation::Orientation;
use crate::output::Output;
use crate::placement::{centering_offset, placed, DisplayView};

verus! {

/// One output's name, the position of its top-left corner and the size of its
/// active mode.
#[derive(Debug)]
pub struct Display {
    pub name: String,
    pub x: i32,
    pub y: i32,
    pub width: i32,
    pub height: i32,
}

impl View for Display {
    type V = DisplayView;

    open spec fn view(&self) -> DisplayView {
        DisplayView {
            name: self.name@,
            x: self.x as int,
            y: self.y as int,
            width: self.width as int,
            height: self.height as int,
        }
    }
}

/// The display that `output` describes: its name, the corner of the area it
/// covers and the size of its current mode. An output without a current mode
/// has no size and describes no display.
pub open spec fn display_of(output: Output) -> Option<DisplayView> {
    match output.current_mode {
        Some(mode) => Some(
            DisplayView {
                name: output.name@,
                x: output.rect.x as int,
                y: output.rect.y as int,
                width: mode.width as int,
                height: mode.height as int,
            },
        ),
        None => None,
    }
}

/// The command that moves the output named `d.name` to the position of `d`:
/// the word `output`, the name, the word `pos` and the two coordinates in
/// decimal notation, separated by single spaces.
pub open spec fn command_text(d: DisplayView) -> Seq<char> {
    "output "@ + d.name + " pos "@ + decimal(d.x) + " "@ + decimal(d.y)
}

/// Computes [`centering_offset`] on machine integers. The difference of two
/// `i32` values may exceed `i32`, half of it never does.
fn center(own: i32, against: i32) -> (offset: i32)
    ensures
        offset == centering_offset(own as int, against as int),
{
    if own < against {
        let difference: i64 = against as i64 - own as i64;
        (difference / 2) as i32
    } else {
        0
    }
}

impl Display {
    /// The display of `output`, or [`ArrangeError::NoActiveMode`] where the
    /// output has no current mode. Nothing else is checked.
    pub fn new(output: &Output) -> (result: Result<Display, ArrangeError>)
        ensures
            match result {
                Ok(display) => display_of(*output) == Some(display@),
                Err(error) => display_of(*output) is None && error == ArrangeError::NoActiveMode,
            },
    {
        match output.current_mode {
            Some(mode) => Ok(
                Display {
                    name: output.name.clone(),
                    x: output.rect.x,
                    y: output.rect.y,
                    width: mode.width,
                    height: mode.height,
                },
            ),
            None => Err(ArrangeError::NoActiveMode),
        }
    }

    /// Places `self` `orientation` of `other`: both are centered against each
    /// other on the cross axis and touch on the main axis. Both positions are
    /// overwritten; names and sizes stay.
    pub fn place(&mut self, orientation: Orientation, other: &mut Display)
        ensures
            final(self)@ == placed(old(self)@, orientation, old(other)@).0,
            final(other)@ == placed(old(self)@, orientation, old(other)@).1,
    {
        let self_x_offset: i32 = center(self.width, other.width);
        let other_x_offset: i32 = center(other.width, self.width);
        let self_y_offset: i32 = center(self.height, other.height);
        let other_y_offset: i32 = center(other.height, self.height);
        match orientation {
            Orientation::Below => {
                other.x = other_x_offset;
                other.y = 0;
                self.x = self_x_offset;
                self.y = other.height;
            },
            Orientation::Above => {
                other.x = other_x_offset;
                other.y = self.height;
                self.x = self_x_offset;
                self.y = 0;
            },
            Orientation::Right => {
                other.x = 0;
                other.y = other_y_offset;
                self.x = other.width;
                self.y = self_y_offset;
            },
            Orientation::Left => {
                other.x = self.width;
                other.y = other_y_offset;
                self.x = 0;
                self.y = self_y_offset;
            },
        }
    }

    /// The command that tells the compositor to move this display's output to
    /// the display's position.
    pub fn to_command_str(&self) -> (command: String)
        ensures
            command@ == command_text(self@),
    {
        let mut command = String::from_str("output ");
        command.append(self.name.as_str());
        command.append(" pos ");
        append_decimal(&mut command, self.x);
        command.append(" ");
        append_decimal(&mut command, self.y);
        command
    }
}

} // verus!
