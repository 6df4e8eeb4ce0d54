//! The settings of a supervisor, as they are written down.

use vstd::prelude::*;
use crate::clock::parsed_time_fields;
use crate::window::{window_outcome, Window, WindowError, TIME_FORMAT};

verus! {

/// The settings as text: what to launch, when the window opens and closes,
/// and where status messages go.
#[derive(Clone, Debug)]
pub struct Config {
    pub server_bat_path: String,
    pub start_time: String,
    pub end_time: String,
    pub discord_webhook_url: String,
}

impl Config {
    /// The window that the two times of the settings describe, each written
    /// as hours and minutes.
    pub fn window(&self) -> (r: Result<Window, WindowError>)
        ensures
            window_outcome(
                parsed_time_fields(self.start_time@, TIME_FORMAT@),
                parsed_time_fields(self.end_time@, TIME_FORMAT@),
                r,
            ),
            r is Ok <==> parsed_time_fields(self.start_time@, TIME_FORMAT@) is Some
                && parsed_time_fields(self.end_time@, TIME_FORMAT@) is Some,
    {
        Window::parse(self.start_time.as_str(), self.end_time.as_str())
    }
}

} // verus!
