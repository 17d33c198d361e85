//! The command line: which image is shown, and how the run is reported.

use vstd::prelude::*;

verus! {

/// The exit status of a run that showed the image until the window closed.
pub const EXIT_SUCCESS: i32 = 0;

/// The exit status of a run that failed while setting up.
pub const EXIT_FAILURE: i32 = 1;

/// Where the image to show comes from.
#[derive(Debug, PartialEq, Eq)]
pub enum ImageSource {
    /// The image that ships with the viewer.
    Bundled,
    /// The file at this path.
    File(String),
}

/// The source that a command line selects. `argv` starts with the program's
/// own name; the first argument after it, where there is one, is a path.
pub open spec fn spec_image_source(argv: Seq<Seq<char>>) -> Option<Seq<char>> {
    if argv.len() >= 2 {
        Some(argv[1])
    } else {
        None
    }
}

impl ImageSource {
    /// The path of the file, or `None` for the bundled image.
    pub open spec fn path(self) -> Option<Seq<char>> {
        match self {
            ImageSource::Bundled => None,
            ImageSource::File(path) => Some(path@),
        }
    }
}

/// Selects the image to show from the command line. Arguments after the
/// first are not looked at.
pub fn select_image_source(argv: &Vec<String>) -> (r: ImageSource)
    ensures
        r.path() == spec_image_source(argv@.map_values(|s: String| s@)),
{
    if argv.len() >= 2 {
        ImageSource::File(argv[1].clone())
    } else {
        ImageSource::Bundled
    }
}

/// The exit status of a run: zero after a normal close, one after any
/// failure to set up.
pub fn exit_status(succeeded: bool) -> (r: i32)
    ensures
        r == if succeeded {
            EXIT_SUCCESS
        } else {
            EXIT_FAILURE
        },
        r == 0 <==> succeeded,
{
    if succeeded {
        EXIT_SUCCESS
    } else {
        EXIT_FAILURE
    }
}

} // verus!
