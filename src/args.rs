//! The commands that a user can give, as plain values.

use vstd::prelude::*;
use crate::date::CalendarDate;

verus! {

/// Values for the stored configuration; an absent one is left unchanged.
#[derive(Debug)]
pub struct Config {
    pub path: Option<String>,
    pub editor: Option<String>,
    pub midnight_offset: Option<u32>,
    pub extension: Option<String>,
}

/// Open the page of a given day.
#[derive(Debug)]
pub struct Page {
    pub date: CalendarDate,
}

#[derive(Debug)]
pub struct Macro {
    pub subcommand: MacroSubcommand,
}

#[derive(Debug)]
pub enum MacroSubcommand {
    Add(AddMacro),
    Rm(RemoveMacro),
}

#[derive(Debug)]
pub struct AddMacro {
    pub name: String,
    pub command: String,
}

#[derive(Debug)]
pub struct RemoveMacro {
    pub name: String,
}

#[derive(Debug)]
pub enum Subcommand {
    Config(Config),
    Page(Page),
    Template,
    Macro(Macro),
}

/// A parsed command line: offline mode, and a command (none: today's page).
#[derive(Debug)]
pub struct Args {
    pub offline: bool,
    pub subcommand: Option<Subcommand>,
}

} // verus!
