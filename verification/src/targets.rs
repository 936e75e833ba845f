//! The target triples that a new project can be set up for.

use crate::text::holds;
use vstd::prelude::*;

verus! {

/// Every target triple that can be chosen, in the order in which they are offered.
pub const AVAILABLE_TARGETS: [&'static str; 13] = [
    "aarch64-apple-darwin",
    "aarch64-linux-android",
    "aarch64-unknown-linux-gnu",
    "aarch64-unknown-linux-musl",
    "aarch64-pc-windows-msvc",
    "x86_64-apple-darwin",
    "x86_64-pc-windows-msvc",
    "x86_64-unknown-linux-gnu",
    "x86_64-unknown-linux-musl",
    "x86_64-unknown-freebsd",
    "i686-pc-windows-msvc",
    "armv7-unknown-linux-gnueabihf",
    "armv7-linux-androideabi",
];

/// The target triples of a project for which none were chosen.
pub const DEFAULT_TARGETS: [&'static str; 3] = [
    "x86_64-apple-darwin",
    "x86_64-pc-windows-msvc",
    "x86_64-unknown-linux-gnu",
];

/// The available targets at the given positions, in the order of the positions.
pub open spec fn targets_at(positions: Seq<usize>) -> Seq<Seq<char>> {
    Seq::new(positions.len(), |k: int| AVAILABLE_TARGETS.deep_view()[positions[k] as int])
}

/// For each available target, in order, whether it is a default target:
/// the choice that is offered before anything has been chosen.
pub fn default_selection() -> (marks: Vec<bool>)
    ensures
        marks@.len() == AVAILABLE_TARGETS@.len(),
        forall|i: int|
            0 <= i < marks@.len() ==> marks@[i] == DEFAULT_TARGETS.deep_view().contains(
                AVAILABLE_TARGETS.deep_view()[i],
            ),
{
    let mut marks: Vec<bool> = Vec::new();
    let mut i: usize = 0;
    while i < AVAILABLE_TARGETS.len()
        invariant
            i <= AVAILABLE_TARGETS@.len(),
            marks@.len() == i,
            forall|j: int|
                0 <= j < i ==> marks@[j] == DEFAULT_TARGETS.deep_view().contains(
                    AVAILABLE_TARGETS.deep_view()[j],
                ),
        decreases AVAILABLE_TARGETS@.len() - i,
    {
        let found = holds(&DEFAULT_TARGETS, AVAILABLE_TARGETS[i]);
        marks.push(found);
        i += 1;
    }
    marks
}

/// The available targets at the chosen positions, in the order of the choice.
pub fn selected_targets(positions: &Vec<usize>) -> (targets: Vec<String>)
    requires
        forall|k: int| 0 <= k < positions@.len() ==> positions@[k] < AVAILABLE_TARGETS@.len(),
    ensures
        targets.deep_view() == targets_at(positions@),
{
    let mut targets: Vec<String> = Vec::new();
    let mut k: usize = 0;
    while k < positions.len()
        invariant
            k <= positions@.len(),
            targets@.len() == k,
            forall|j: int| 0 <= j < positions@.len() ==> positions@[j] < AVAILABLE_TARGETS@.len(),
            forall|j: int|
                0 <= j < k ==> targets@[j]@ == AVAILABLE_TARGETS@[positions@[j] as int]@,
        decreases positions@.len() - k,
    {
        targets.push(AVAILABLE_TARGETS[positions[k]].to_owned());
        k += 1;
    }
    assert(targets.deep_view() =~= targets_at(positions@));
    targets
}

} // verus!
