//! The names that are derived from the name of an npm package.

use crate::text::{
    join, lemma_joined_segments_replaces, lemma_segments_len, replaced, segments, split,
    trim_leading, without_leading,
};
use vstd::prelude::*;

verus! {

/// The name of the crate for a package: the package's name without the `@`
/// signs that it starts with, and with `-` in place of every `/`.
pub open spec fn crate_name(package: Seq<char>) -> Seq<char> {
    replaced(without_leading(package, '@'), '/', '-')
}

/// The name of the binary for a package: what follows the last `/` of the
/// package's name, or the whole name where it holds no `/`
/// (see [`lemma_last_segment`](crate::text::lemma_last_segment)).
pub open spec fn binary_name(package: Seq<char>) -> Seq<char> {
    segments(package, '/').last()
}

/// The name of the crate for the package `name`, so that the scoped package
/// `@scope/pkg` gets the crate `scope-pkg`.
pub fn package_name_to_crate_name(name: &str) -> (crate_name: String)
    ensures
        crate_name@ == self::crate_name(name@),
{
    let bare = trim_leading(name, '@');
    let parts = split(bare, '/');
    proof {
        reveal_strlit("-");
        assert("-"@ == seq!['-']);
        lemma_joined_segments_replaces(bare@, '/', '-');
    }
    join(&parts, "-")
}

/// The name of the binary for the package `name`, so that the scoped package
/// `@scope/pkg` gets the binary `pkg`.
pub fn package_name_to_binary_name(name: &str) -> (binary_name: String)
    ensures
        binary_name@ == self::binary_name(name@),
{
    let parts = split(name, '/');
    proof {
        lemma_segments_len(name@, '/');
    }
    parts[parts.len() - 1].to_owned()
}

} // verus!
