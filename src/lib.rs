//! Small command-line utilities, with a verified release-version driver at
//! their core.
use vstd::prelude::*;

pub mod gitemail;
pub mod passgen;
pub mod pdfcrop;
pub mod pdfembed;
pub mod plain_photos;
pub mod release;
pub mod setup;
pub mod version;
pub mod vp9;
pub mod wifiqr;

verus! {

#[verifier::external_type_specification]
#[verifier::external_body]
pub struct ExInstant(std::time::Instant);

/// Relies on `std::time::Instant::now`: the current instant, of which
/// nothing is promised.
#[verifier::external_body]
fn now() -> std::time::Instant {
    std::time::Instant::now()
}

/// A named, timed section of a longer task.
pub struct Section {
    pub name: &'static str,
    pub start: std::time::Instant,
}

impl Section {
    /// Opens the section `name`, started now.
    pub fn new(name: &'static str) -> (r: Section)
        ensures
            r.name == name,
    {
        Section { name, start: now() }
    }
}

} // verus!
