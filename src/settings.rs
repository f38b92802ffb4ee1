use vstd::prelude::*;

verus! {

/// Size of the logical window, in pixels.
pub const LOGICAL_WIDTH: u16 = 640;

pub const LOGICAL_HEIGHT: u16 = 360;

/// A windowed resolution: the logical size scaled by a whole factor.
#[derive(Clone, Copy, Debug, PartialEq, Eq, Structural)]
pub enum Resolution {
    Logical,
    HD,
    FullHD,
    QHD,
}

impl Resolution {
    pub open spec fn scale_spec(self) -> int {
        match self {
            Resolution::Logical => 1,
            Resolution::HD => 2,
            Resolution::FullHD => 3,
            Resolution::QHD => 4,
        }
    }

    pub open spec fn next(self) -> Resolution {
        match self {
            Resolution::Logical => Resolution::HD,
            Resolution::HD => Resolution::FullHD,
            Resolution::FullHD => Resolution::QHD,
            Resolution::QHD => Resolution::Logical,
        }
    }

    /// How many screen pixels a logical pixel takes.
    pub fn scale(&self) -> (r: u16)
        ensures
            r == self.scale_spec(),
    {
        match self {
            Resolution::Logical => 1,
            Resolution::HD => 2,
            Resolution::FullHD => 3,
            Resolution::QHD => 4,
        }
    }

    /// Width and height in pixels: the logical size times the scale.
    pub fn pixels(&self) -> (r: (u16, u16))
        ensures
            r.0 == LOGICAL_WIDTH * self.scale_spec(),
            r.1 == LOGICAL_HEIGHT * self.scale_spec(),
    {
        match self {
            Resolution::Logical => (LOGICAL_WIDTH, LOGICAL_HEIGHT),
            Resolution::HD => (1280, 720),
            Resolution::FullHD => (1920, 1080),
            Resolution::QHD => (2560, 1440),
        }
    }

    /// The next resolution, from the logical size up and round again.
    pub fn cycle(&mut self)
        ensures
            *final(self) == old(self).next(),
    {
        *self = match self {
            Resolution::Logical => Resolution::HD,
            Resolution::HD => Resolution::FullHD,
            Resolution::FullHD => Resolution::QHD,
            Resolution::QHD => Resolution::Logical,
        };
    }
}

impl Default for Resolution {
    fn default() -> (r: Resolution)
        ensures
            r == Resolution::Logical,
    {
        Resolution::Logical
    }
}

/// How the game window is shown.
#[derive(Clone, Copy, Debug, PartialEq, Eq, Structural)]
pub enum WindowSettings {
    Windowed(Resolution),
    Borderless,
    Fullscreen,
}

impl Default for WindowSettings {
    fn default() -> (r: WindowSettings)
        ensures
            r == WindowSettings::Windowed(Resolution::Logical),
    {
        WindowSettings::Windowed(Resolution::Logical)
    }
}

impl WindowSettings {
    /// The next mode: windowed, borderless, fullscreen, then windowed at the
    /// logical size again.
    pub fn cycle_mode(&mut self)
        ensures
            *final(self) == match *old(self) {
                WindowSettings::Windowed(_) => WindowSettings::Borderless,
                WindowSettings::Borderless => WindowSettings::Fullscreen,
                WindowSettings::Fullscreen => WindowSettings::Windowed(Resolution::Logical),
            },
    {
        *self = match self {
            WindowSettings::Windowed(_) => WindowSettings::Borderless,
            WindowSettings::Borderless => WindowSettings::Fullscreen,
            WindowSettings::Fullscreen => WindowSettings::default(),
        };
    }

    /// The next resolution when windowed; other modes have none to change.
    pub fn cycle_res(&mut self)
        ensures
            *final(self) == match *old(self) {
                WindowSettings::Windowed(r) => WindowSettings::Windowed(r.next()),
                other => other,
            },
    {
        match self {
            WindowSettings::Windowed(res) => res.cycle(),
            _ => {},
        }
    }

    /// The resolution the window gets: its own when windowed, full HD
    /// otherwise.
    pub fn resolution(&self) -> (r: Resolution)
        ensures
            r == match *self {
                WindowSettings::Windowed(res) => res,
                _ => Resolution::FullHD,
            },
    {
        match self {
            WindowSettings::Windowed(res) => *res,
            _ => Resolution::FullHD,
        }
    }

    /// The name of the mode.
    pub fn mode_str(&self) -> (r: String)
        ensures
            r@ == match *self {
                WindowSettings::Windowed(_) => "Windowed"@,
                WindowSettings::Borderless => "Borderless"@,
                WindowSettings::Fullscreen => "Fullscreen"@,
            },
    {
        match self {
            WindowSettings::Windowed(_) => "Windowed".to_owned(),
            WindowSettings::Borderless => "Borderless".to_owned(),
            WindowSettings::Fullscreen => "Fullscreen".to_owned(),
        }
    }
}

/// The player's choices.
#[derive(Clone, Copy, Debug, PartialEq, Eq, Structural)]
pub struct UserSettings {
    pub window: WindowSettings,
}

impl Default for UserSettings {
    fn default() -> (r: UserSettings)
        ensures
            r.window == WindowSettings::Windowed(Resolution::Logical),
    {
        UserSettings { window: WindowSettings::default() }
    }
}

} // verus!
