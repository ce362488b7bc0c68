use vstd::prelude::*;

verus! {

/// Turns an executable's icon into a base64 data URI for the interface.
///
/// The interface draws its own brand icons for known applications and a
/// generic icon for any other executable, so no icon is ever extracted here.
pub struct IconExtractor;

impl IconExtractor {
    /// The icon of the executable at `_exe_path`, as a base64 data URI; always
    /// `None`, which tells the interface to draw its own icon.
    pub fn extract_icon_base64(_exe_path: &str) -> (icon: Option<String>)
        ensures
            icon.is_none(),
    {
        None
    }
}

} // verus!
