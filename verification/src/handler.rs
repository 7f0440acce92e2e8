//! Selection of the generated fatal-error handler.
//!
//! The emitted application carries exactly one of two terminal handlers,
//! chosen once at build time: a diagnostic variant that draws the failure
//! location and message on the device display before idling forever, or a
//! silent variant that idles forever with no output. The handler only
//! references the device's display primitive; it never implements it.

use vstd::prelude::*;

verus! {

/// The build-time switch that decides which fatal-error handler is emitted.
#[derive(Clone, Copy, PartialEq, Eq, Structural, Debug)]
pub enum BuildMode {
    Debug,
    Release,
}

/// A screen coordinate handed to the display primitive.
#[derive(Clone, Copy, PartialEq, Eq, Structural, Debug)]
pub struct Point {
    pub x: u16,
    pub y: u16,
}

/// A display color, one byte per channel.
#[derive(Clone, Copy, PartialEq, Eq, Structural, Debug)]
pub struct Color {
    pub red: u8,
    pub green: u8,
    pub blue: u8,
}

/// The fatal-error handler emitted into the application image. Both
/// variants are terminal: neither returns nor performs any cleanup.
#[derive(Clone, Copy, PartialEq, Eq, Structural, Debug)]
pub enum HandlerVariant {
    /// Draws the failure message and its source location at two fixed
    /// screen positions in a fixed two-color palette, then idles forever.
    Diagnostic {
        message_position: Point,
        location_position: Point,
        foreground: Color,
        background: Color,
    },
    /// Idles forever with no visible output.
    Silent,
}

/// The fixed diagnostic layout: message at the top of the screen, source
/// location below it, red text on a white background.
pub open spec fn diagnostic_handler() -> HandlerVariant {
    HandlerVariant::Diagnostic {
        message_position: Point { x: 0, y: 0 },
        location_position: Point { x: 0, y: 40 },
        foreground: Color { red: 255, green: 0, blue: 0 },
        background: Color { red: 255, green: 255, blue: 255 },
    }
}

/// Which handler a build mode selects: the diagnostic variant for debug
/// builds, the silent variant for release builds. A function of the build
/// mode alone; failure content plays no part.
pub open spec fn handler_for(mode: BuildMode) -> HandlerVariant {
    match mode {
        BuildMode::Debug => diagnostic_handler(),
        BuildMode::Release => HandlerVariant::Silent,
    }
}

/// Selects the handler variant for this build, resolved once per
/// transform invocation and never re-evaluated at runtime.
pub fn select_handler(mode: BuildMode) -> (h: HandlerVariant)
    ensures
        h == handler_for(mode),
{
    match mode {
        BuildMode::Debug => HandlerVariant::Diagnostic {
            message_position: Point { x: 0, y: 0 },
            location_position: Point { x: 0, y: 40 },
            foreground: Color { red: 255, green: 0, blue: 0 },
            background: Color { red: 255, green: 255, blue: 255 },
        },
        BuildMode::Release => HandlerVariant::Silent,
    }
}

} // verus!
