//! The errors of the crate, each with a message that shows its data.

use vstd::prelude::*;

verus! {

/// The errors that creating or rebuilding a window can meet.
///
/// An `err` field holds the description of what the platform or graphics side
/// reported.
#[derive(Debug, PartialEq, Eq)]
pub enum WindowError {
    /// The monitor index is not below the number of monitors.
    UnknownMonitor { got: usize, expected: usize },
    /// The first monitor was asked for, and there are none.
    NoMonitors,
    /// The monitor offers no video mode with this resolution, refresh rate and bit depth.
    UnknownVideoMode { monitor: usize, resolution: (u32, u32), refresh_rate: u16, bit_depth: u16 },
    /// The platform window could not be built.
    WindowCreateError { title: String, err: String },
    /// The surface could not be created for the window.
    SurfaceCreateError { title: String, err: String },
    /// The presentation chain could not be created for the window.
    SwapchainCreateError { title: String, err: String },
    /// The presentation chain could not be resized.
    SwapchainRecreateError {
        title: String,
        old_size: crate::spec::Extent2D,
        new_size: crate::spec::Extent2D,
        err: String,
    },
}

/// The character of a decimal digit.
pub open spec fn digit_char(d: nat) -> char {
    if d == 0 { '0' }
    else if d == 1 { '1' }
    else if d == 2 { '2' }
    else if d == 3 { '3' }
    else if d == 4 { '4' }
    else if d == 5 { '5' }
    else if d == 6 { '6' }
    else if d == 7 { '7' }
    else if d == 8 { '8' }
    else { '9' }
}

/// The decimal digits of a number, most significant first, without leading zeros.
pub open spec fn decimal(n: nat) -> Seq<char>
    decreases n,
{
    if n < 10 {
        seq![digit_char(n)]
    } else {
        decimal(n / 10).push(digit_char(n % 10))
    }
}

/// Relies on the `Display` of `u64` (through `ToString`): plain decimal digits.
#[verifier::external_body]
fn decimal_string(n: u64) -> (r: String)
    ensures
        r@ == decimal(n as nat),
{
    n.to_string()
}

/// How an extent is shown: width, `x`, height.
pub open spec fn extent_text(e: crate::spec::Extent2D) -> Seq<char> {
    decimal(e.w as nat) + "x"@ + decimal(e.h as nat)
}

fn push_extent(s: &mut String, e: crate::spec::Extent2D)
    ensures
        final(s)@ == old(s)@ + extent_text(e),
{
    s.append(decimal_string(e.w as u64).as_str());
    s.append("x");
    s.append(decimal_string(e.h as u64).as_str());
}

impl WindowError {
    /// The message that describes this error.
    pub open spec fn spec_message(&self) -> Seq<char> {
        match self {
            WindowError::UnknownMonitor { got, expected } => "Unknown monitor index '"@ + decimal(
                *got as nat,
            ) + "' (only "@ + decimal(*expected as nat) + " monitors known)"@,
            WindowError::NoMonitors => "No monitors found to create a Window on"@,
            WindowError::UnknownVideoMode { monitor, resolution, refresh_rate, bit_depth } =>
                "Monitor "@ + decimal(*monitor as nat) + " does not support "@ + decimal(
                resolution.0 as nat,
            ) + "x"@ + decimal(resolution.1 as nat) + "@"@ + decimal(*refresh_rate as nat) + " ("@
                + decimal(*bit_depth as nat) + " bpp)"@,
            WindowError::WindowCreateError { title, err } => "Could not create window with title '"@
                + title@ + "': "@ + err@,
            WindowError::SurfaceCreateError { title, err } =>
                "Could not create new Surface for window with title '"@ + title@ + "': "@ + err@,
            WindowError::SwapchainCreateError { title, err } =>
                "Could not create new Swapchain for window with title '"@ + title@ + "': "@ + err@,
            WindowError::SwapchainRecreateError { title, old_size, new_size, err } =>
                "Could not re-create Swapchain from "@ + extent_text(*old_size) + " to "@
                + extent_text(*new_size) + " for window with title '"@ + title@ + "': "@ + err@,
        }
    }

    /// The message that describes this error.
    pub fn message(&self) -> (r: String)
        ensures
            r@ == self.spec_message(),
    {
        match self {
            WindowError::UnknownMonitor { got, expected } => {
                let mut s = String::from_str("Unknown monitor index '");
                s.append(decimal_string(*got as u64).as_str());
                s.append("' (only ");
                s.append(decimal_string(*expected as u64).as_str());
                s.append(" monitors known)");
                s
            },
            WindowError::NoMonitors => String::from_str("No monitors found to create a Window on"),
            WindowError::UnknownVideoMode { monitor, resolution, refresh_rate, bit_depth } => {
                let mut s = String::from_str("Monitor ");
                s.append(decimal_string(*monitor as u64).as_str());
                s.append(" does not support ");
                s.append(decimal_string(resolution.0 as u64).as_str());
                s.append("x");
                s.append(decimal_string(resolution.1 as u64).as_str());
                s.append("@");
                s.append(decimal_string(*refresh_rate as u64).as_str());
                s.append(" (");
                s.append(decimal_string(*bit_depth as u64).as_str());
                s.append(" bpp)");
                s
            },
            WindowError::WindowCreateError { title, err } => {
                let mut s = String::from_str("Could not create window with title '");
                s.append(title.as_str());
                s.append("': ");
                s.append(err.as_str());
                s
            },
            WindowError::SurfaceCreateError { title, err } => {
                let mut s = String::from_str("Could not create new Surface for window with title '");
                s.append(title.as_str());
                s.append("': ");
                s.append(err.as_str());
                s
            },
            WindowError::SwapchainCreateError { title, err } => {
                let mut s = String::from_str(
                    "Could not create new Swapchain for window with title '",
                );
                s.append(title.as_str());
                s.append("': ");
                s.append(err.as_str());
                s
            },
            WindowError::SwapchainRecreateError { title, old_size, new_size, err } => {
                let mut s = String::from_str("Could not re-create Swapchain from ");
                push_extent(&mut s, *old_size);
                s.append(" to ");
                push_extent(&mut s, *new_size);
                s.append(" for window with title '");
                s.append(title.as_str());
                s.append("': ");
                s.append(err.as_str());
                s
            },
        }
    }
}

/// The error of decoding a textual window mode.
#[derive(Clone, Debug, PartialEq, Eq)]
pub enum WindowModeError {
    /// The tag is none of `windowed`, `windowed_fullscreen` and `fullscreen`.
    UnknownWindowMode { got: String },
}

impl WindowModeError {
    /// The message that describes this error.
    pub open spec fn spec_message(&self) -> Seq<char> {
        match self {
            WindowModeError::UnknownWindowMode { got } => "Unknown window mode identifier '"@ + got@
                + "'"@,
        }
    }

    /// The message that describes this error.
    pub fn message(&self) -> (r: String)
        ensures
            r@ == self.spec_message(),
    {
        match self {
            WindowModeError::UnknownWindowMode { got } => {
                let mut s = String::from_str("Unknown window mode identifier '");
                s.append(got.as_str());
                s.append("'");
                s
            },
        }
    }
}

} // verus!
