//! What a report shows: how a listing groups the dependencies, how many
//! locations an analysis lists, and how a commit is named.

use crate::dependency::{dependency_views, Dependency, DependencyType, DependencyView, UsageInfo};
use crate::text::{from_chars, slice_chars, to_chars};
use vstd::prelude::*;

verus! {

/// The groups of a listing.
#[derive(Debug, Clone, Copy, PartialEq, Eq, Structural)]
pub enum DependencyGroup {
    /// The direct dependencies.
    Direct,
    /// The development dependencies.
    Development,
    /// All other dependencies: optional, peer and build dependencies.
    Other,
}

/// The group that a kind of dependency is listed in.
pub open spec fn group_of(kind: DependencyType) -> DependencyGroup {
    match kind {
        DependencyType::Direct => DependencyGroup::Direct,
        DependencyType::Dev => DependencyGroup::Development,
        _ => DependencyGroup::Other,
    }
}

/// The dependencies of a group, in their order.
pub open spec fn in_group(deps: Seq<DependencyView>, group: DependencyGroup) -> Seq<DependencyView>
    decreases deps.len(),
{
    if deps.len() == 0 {
        Seq::empty()
    } else {
        let before = in_group(deps.drop_last(), group);
        if group_of(deps.last().dependency_type) == group {
            before.push(deps.last())
        } else {
            before
        }
    }
}

/// The group that a kind of dependency is listed in.
pub fn dependency_group(kind: DependencyType) -> (group: DependencyGroup)
    ensures
        group == group_of(kind),
{
    match kind {
        DependencyType::Direct => DependencyGroup::Direct,
        DependencyType::Dev => DependencyGroup::Development,
        _ => DependencyGroup::Other,
    }
}

/// The dependencies of a group, in their order.
pub fn dependencies_in_group(deps: &Vec<Dependency>, group: DependencyGroup) -> (chosen: Vec<
    Dependency,
>)
    ensures
        dependency_views(chosen@) == in_group(dependency_views(deps@), group),
{
    let mut chosen: Vec<Dependency> = Vec::new();
    let mut i: usize = 0;
    assert(dependency_views(chosen@) =~= Seq::empty());
    while i < deps.len()
        invariant
            i <= deps.len(),
            dependency_views(chosen@) == in_group(dependency_views(deps@).take(i as int), group),
        decreases deps.len() - i,
    {
        let ghost before = dependency_views(chosen@);
        proof {
            let views = dependency_views(deps@);
            assert(views.take(i + 1).drop_last() =~= views.take(i as int));
            assert(views.take(i + 1).last() == deps@[i as int]@);
        }
        if dependency_group(deps[i].dependency_type) == group {
            let dep = deps[i].duplicate();
            chosen.push(dep);
            assert(dependency_views(chosen@) =~= before.push(dep@));
        }
        i += 1;
    }
    assert(dependency_views(deps@).take(deps@.len() as int) =~= dependency_views(deps@));
    chosen
}

/// The number of locations that a report lists at most.
pub const MAX_LISTED_LOCATIONS: usize = 10;

/// How many locations of an analysis a report lists: all of them, but no
/// more than `MAX_LISTED_LOCATIONS`.
pub fn listed_locations(usage: &UsageInfo) -> (listed: usize)
    ensures
        listed == if usage.count() <= MAX_LISTED_LOCATIONS {
            usage.count()
        } else {
            MAX_LISTED_LOCATIONS as nat
        },
{
    let count = usage.usage_count();
    if count <= MAX_LISTED_LOCATIONS {
        count
    } else {
        MAX_LISTED_LOCATIONS
    }
}

/// How many locations of an analysis a report leaves out.
pub fn omitted_locations(usage: &UsageInfo) -> (omitted: usize)
    ensures
        omitted == if usage.count() <= MAX_LISTED_LOCATIONS {
            0
        } else {
            usage.count() - MAX_LISTED_LOCATIONS
        },
{
    let count = usage.usage_count();
    if count <= MAX_LISTED_LOCATIONS {
        0
    } else {
        count - MAX_LISTED_LOCATIONS
    }
}

/// The number of characters by which a report names a commit.
pub const SHORT_HASH_LENGTH: usize = 8;

/// The short name of a commit: the first `SHORT_HASH_LENGTH` characters of
/// its hash, or the whole hash where it is shorter.
pub open spec fn short_hash_of(hash: Seq<char>) -> Seq<char> {
    if hash.len() <= SHORT_HASH_LENGTH {
        hash
    } else {
        hash.subrange(0, SHORT_HASH_LENGTH as int)
    }
}

/// The short name of a commit.
pub fn short_hash(hash: &str) -> (short: String)
    ensures
        short@ == short_hash_of(hash@),
{
    let chars = to_chars(hash);
    if chars.len() <= SHORT_HASH_LENGTH {
        hash.to_owned()
    } else {
        from_chars(&slice_chars(&chars, 0, SHORT_HASH_LENGTH))
    }
}

} // verus!
