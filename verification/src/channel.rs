//! The default release channels, and how a toolchain name is cut down to one.

use vstd::prelude::*;
use crate::text::has_prefix;

verus! {

/// The channels that rustup installs by default, in the order in which a
/// toolchain name is held against them.
pub const DEFAULT_PROFILES: [&'static str; 3] = ["stable", "beta", "nightly"];

/// The channel names as sequences of characters, in the order of
/// `DEFAULT_PROFILES`.
pub open spec fn channels() -> Seq<Seq<char>> {
    seq!["stable"@, "beta"@, "nightly"@]
}

/// Whether `name` begins with the name of a default channel.
pub open spec fn names_channel(name: Seq<char>) -> bool {
    exists|i: int| 0 <= i < channels().len() && (#[trigger] channels()[i]).is_prefix_of(name)
}

/// The short form of a toolchain name: the first default channel that the
/// name begins with, or, if it begins with none, the name itself.
pub open spec fn truncated(name: Seq<char>) -> Seq<char> {
    if "stable"@.is_prefix_of(name) {
        "stable"@
    } else if "beta"@.is_prefix_of(name) {
        "beta"@
    } else if "nightly"@.is_prefix_of(name) {
        "nightly"@
    } else {
        name
    }
}

/// Truncate the triple from a toolchain name if it's one of the defaults.
///
/// `nightly-x86_64-unknown-linux-gnu` becomes `nightly`; a custom name such as
/// `my-custom-toolchain` is handed back as it came.
pub fn truncate_toolchain(toolchain: String) -> (name: String)
    ensures
        name@ == truncated(toolchain@),
        !names_channel(toolchain@) ==> name@ == toolchain@,
{
    let mut i: usize = 0;
    while i < DEFAULT_PROFILES.len()
        invariant
            i <= DEFAULT_PROFILES.len() == 3,
            forall|j: int| 0 <= j < i ==> !(#[trigger] channels()[j]).is_prefix_of(toolchain@),
        decreases DEFAULT_PROFILES.len() - i,
    {
        let default: &str = DEFAULT_PROFILES[i];
        assert(default@ == channels()[i as int]);
        if has_prefix(toolchain.as_str(), default) {
            return String::from_str(default);
        }
        i += 1;
    }
    proof {
        assert(!channels()[0].is_prefix_of(toolchain@));
        assert(!channels()[1].is_prefix_of(toolchain@));
        assert(!channels()[2].is_prefix_of(toolchain@));
    }
    toolchain
}

/// Truncating twice gives what truncating once gives: a name that is
/// already short is handed back as it is.
pub proof fn truncated_is_idempotent(name: Seq<char>)
    ensures
        truncated(truncated(name)) == truncated(name),
{
    reveal_strlit("stable");
    reveal_strlit("beta");
    reveal_strlit("nightly");
    let short = truncated(name);
    if names_channel(name) {
        assert(short == "stable"@ || short == "beta"@ || short == "nightly"@);
        assert(short.is_prefix_of(short));
        assert(!"stable"@.is_prefix_of("beta"@));
        assert("stable"@[0] != "nightly"@[0]);
        assert("beta"@[0] != "nightly"@[0]);
    } else {
        assert(!channels()[0].is_prefix_of(name));
        assert(!channels()[1].is_prefix_of(name));
        assert(!channels()[2].is_prefix_of(name));
    }
}

} // verus!
