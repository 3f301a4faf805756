//! Locked personality strings: exact, lowercase, never localized.
use vstd::prelude::*;

verus! {

pub const FILER_EMPTY_FOLDER: &'static str = "nothing here yet";
pub const FILER_NO_SEARCH_RESULTS: &'static str = "no files match";
pub const PATHFINDER_NO_RESULTS: &'static str = "nothing found for";
pub const COCKPITVIEW_ONE_WINDOW: &'static str = "open more apps to fill the space";
pub const PATHFINDER_FIRST_OPEN: &'static str = "what are you looking for?";
pub const PATHFINDER_PLACEHOLDER: &'static str = "Search vitusOS";
pub const FILER_FIRST_OPEN: &'static str = "this is your home";
pub const SHUTDOWN: &'static str = "goodbye";
pub const RESTART: &'static str = "i'll see you in a bit";
pub const WELCOME_STEP3_TITLE: &'static str = "you're all set";
pub const WELCOME_STEP3_SUBTITLE: &'static str = "welcome to vitusOS";
pub const WELCOME_STEP3_BUTTON: &'static str = "let's go";

} // verus!
