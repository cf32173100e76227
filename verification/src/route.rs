//! What the first argument asks for.
use vstd::prelude::*;
use crate::text::same_text;

verus! {

/// Where an invocation goes.
#[derive(Debug, PartialEq, Eq)]
pub enum Route<'a> {
    /// Start the overlay, with whatever followed `draw`.
    Draw(&'a [String]),
    Doctor,
    Version,
    Help,
    /// Anything else: a control verb on platforms that have them, otherwise an
    /// unknown command.
    Other(&'a str),
}

/// The texts of a list of arguments.
pub open spec fn texts(args: Seq<String>) -> Seq<Seq<char>> {
    args.map_values(|a: String| a@)
}

/// Routes the arguments after the program name.
///
/// No arguments means draw, which is what a double-click does. An
/// unrecognised word is *not* draw: a typo for a control verb must say what
/// went wrong rather than open a second overlay.
pub fn route(args: &[String]) -> (route: Route<'_>)
    ensures
        args@.len() == 0 ==> (route matches Route::Draw(rest) && rest@.len() == 0),
        args@.len() > 0 ==> {
            let first = args@[0]@;
            if first == "draw"@ {
                route matches Route::Draw(rest) && rest@ == args@.skip(1)
            } else if first == "doctor"@ {
                route is Doctor
            } else if first == "version"@ || first == "--version"@ || first == "-V"@ {
                route is Version
            } else if first == "help"@ || first == "--help"@ || first == "-h"@ {
                route is Help
            } else {
                route matches Route::Other(word) && word@ == first
            }
        },
{
    if args.len() == 0 {
        return Route::Draw(args);
    }
    let first = args[0].as_str();
    if same_text(first, "draw") {
        let (_, rest) = args.split_at(1);
        assert(rest@ =~= args@.skip(1));
        Route::Draw(rest)
    } else if same_text(first, "doctor") {
        Route::Doctor
    } else if same_text(first, "version") || same_text(first, "--version") || same_text(first, "-V") {
        Route::Version
    } else if same_text(first, "help") || same_text(first, "--help") || same_text(first, "-h") {
        Route::Help
    } else {
        Route::Other(first)
    }
}

} // verus!
