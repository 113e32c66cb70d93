//! Startup configuration: which display device the UI runs on.
use vstd::prelude::*;
use crate::session::BackendKind;

verus! {

/// How the terminal is to be acquired at startup.
#[derive(Clone, Copy, Debug, PartialEq, Eq, Structural)]
pub enum TerminalSetup {
    /// The interactive terminal, sized by the device itself.
    Crossterm,
    /// An in-memory buffer of the given size.
    Test { width: u16, height: u16 },
}

/// Why a configuration cannot start.
#[derive(Clone, Copy, Debug, PartialEq, Eq, Structural)]
pub enum SetupError {
    /// A headless backend was asked for without its dimensions.
    MissingTestSize,
}

/// The setup that a configuration of `backend` and `size` asks for.
pub open spec fn setup_spec(backend: BackendKind, size: Option<(u16, u16)>) -> Result<TerminalSetup, SetupError> {
    match backend {
        BackendKind::Crossterm => Ok(TerminalSetup::Crossterm),
        BackendKind::Test => match size {
            Some((width, height)) => Ok(TerminalSetup::Test { width, height }),
            None => Err(SetupError::MissingTestSize),
        },
    }
}

/// The terminal UI: latch, compositor and session on one device.
#[derive(Clone, Copy, Debug)]
pub struct TuiPlugin {
    pub backend: BackendKind,
    pub size: Option<(u16, u16)>,
}

impl Default for TuiPlugin {
    fn default() -> (r: TuiPlugin)
        ensures
            r.backend == BackendKind::Crossterm,
            r.size.is_none(),
    {
        TuiPlugin { backend: BackendKind::Crossterm, size: None }
    }
}

impl TuiPlugin {
    /// The interactive terminal.
    pub fn new() -> (r: TuiPlugin)
        ensures
            r.backend == BackendKind::Crossterm,
            r.size.is_none(),
    {
        TuiPlugin { backend: BackendKind::Crossterm, size: None }
    }

    /// A headless buffer of `width` by `height` cells.
    pub fn test_backend(width: u16, height: u16) -> (r: TuiPlugin)
        ensures
            r.backend == BackendKind::Test,
            r.size == Some((width, height)),
    {
        TuiPlugin { backend: BackendKind::Test, size: Some((width, height)) }
    }

    /// The setup this configuration asks for; a headless backend without
    /// dimensions cannot start.
    pub fn terminal_setup(&self) -> (r: Result<TerminalSetup, SetupError>)
        ensures
            r == setup_spec(self.backend, self.size),
    {
        match self.backend {
            BackendKind::Crossterm => Ok(TerminalSetup::Crossterm),
            BackendKind::Test => match self.size {
                Some((width, height)) => Ok(TerminalSetup::Test { width, height }),
                None => Err(SetupError::MissingTestSize),
            },
        }
    }
}

/// The terminal UI together with the plugins it runs under.
#[derive(Clone, Copy, Debug)]
pub struct RatatEcsPlugins {
    pub backend: BackendKind,
    pub size: Option<(u16, u16)>,
}

impl Default for RatatEcsPlugins {
    fn default() -> (r: RatatEcsPlugins)
        ensures
            r.backend == BackendKind::Crossterm,
            r.size.is_none(),
    {
        RatatEcsPlugins { backend: BackendKind::Crossterm, size: None }
    }
}

impl RatatEcsPlugins {
    /// The interactive terminal.
    pub fn new() -> (r: RatatEcsPlugins)
        ensures
            r.backend == BackendKind::Crossterm,
            r.size.is_none(),
    {
        RatatEcsPlugins { backend: BackendKind::Crossterm, size: None }
    }

    /// A headless buffer of `width` by `height` cells.
    pub fn test_backend(width: u16, height: u16) -> (r: RatatEcsPlugins)
        ensures
            r.backend == BackendKind::Test,
            r.size == Some((width, height)),
    {
        RatatEcsPlugins { backend: BackendKind::Test, size: Some((width, height)) }
    }

    /// The terminal UI plugin of this group, on the same device.
    pub fn tui_plugin(&self) -> (r: TuiPlugin)
        ensures
            r.backend == self.backend,
            r.size == self.size,
    {
        TuiPlugin { backend: self.backend, size: self.size }
    }
}

} // verus!
