use vstd::prelude::*;

verus! {

/// The parsed command line: an optional subcommand (running the service when
/// none is given) and an optional device list.
#[derive(Debug)]
pub struct Cli {
    pub command: Option<Commands>,
    pub devices: Option<Vec<String>>,
}

impl Cli {
    /// The chosen subcommand, falling back to running the service.
    pub fn command(self) -> (r: Commands)
        ensures
            r == (match self.command {
                Some(c) => c,
                None => Commands::Run,
            }),
    {
        match self.command {
            Some(c) => c,
            None => Commands::default(),
        }
    }
}

/// The subcommands: layout operations, device listing, or running the
/// service (the default).
#[derive(Debug)]
pub enum Commands {
    Layout(Layout),
    Devices,
    Run,
}

impl Default for Commands {
    fn default() -> (r: Commands)
        ensures
            r is Run,
    {
        Commands::Run
    }
}

/// The layout subcommand group.
#[derive(Debug)]
pub struct Layout {
    pub command: LayoutSubcommands,
}

/// Argument of setting a layout: the wanted layout's display name.
#[derive(Debug)]
pub struct SetLayoutArgs {
    pub layout: String,
}

/// The layout operations: read the active one, set one by name, or list the
/// configured ones (the default).
#[derive(Debug)]
pub enum LayoutSubcommands {
    Get,
    SetLayout(SetLayoutArgs),
    List,
}

impl Default for LayoutSubcommands {
    fn default() -> (r: LayoutSubcommands)
        ensures
            r is List,
    {
        LayoutSubcommands::List
    }
}

} // verus!
