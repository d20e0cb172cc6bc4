//! Which program to run.
//!
//! The host reads its configuration and hands over the program path that
//! it names, if it names one.

use vstd::prelude::*;

verus! {

/// The program that runs when the configuration names none.
pub const DEFAULT_ROM: &'static str = "roms/c8_test.c8";

/// The path of the program to load: the configured one, or the default.
pub fn resolve_rom_path(configured: Option<String>) -> (path: String)
    ensures
        configured matches Some(chosen) ==> path@ == chosen@,
        configured is None ==> path@ == DEFAULT_ROM@,
{
    match configured {
        Some(chosen) => chosen,
        None => DEFAULT_ROM.to_owned(),
    }
}

} // verus!
