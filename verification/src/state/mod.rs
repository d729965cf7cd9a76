//! The accounts that the program owns.
pub mod matches;
pub mod release_authority;

pub use matches::{is_valid_match_type_for_init, Match, MatchView};
pub use release_authority::{ReleaseAuthority, ReleaseAuthorityItem};
