//! Collecting: a map from paths to what was found there.

use crate::scanner::risk::RiskFinding;
use dashmap::DashMap;
use vstd::prelude::*;

verus! {

/// `dashmap::DashMap`, a hash map that threads can share.
#[verifier::external_type_specification]
#[verifier::external_body]
#[verifier::reject_recursive_types(K)]
#[verifier::reject_recursive_types(V)]
#[verifier::reject_recursive_types(S)]
pub struct ExDashMap<K, V, S>(DashMap<K, V, S>);

/// What a map holds: the findings of each path.
pub uninterp spec fn collected(map: DashMap<String, Vec<RiskFinding>>) -> Map<
    Seq<char>,
    Seq<RiskFinding>,
>;

/// The map that holds nothing.
pub open spec fn no_findings() -> Map<Seq<char>, Seq<RiskFinding>> {
    Map::empty()
}

/// `DashMap::new` makes a map that holds nothing.
#[verifier::external_body]
pub(crate) fn new_map() -> (r: DashMap<String, Vec<RiskFinding>>)
    ensures
        collected(r) == no_findings(),
{
    DashMap::new()
}

/// `DashMap::insert` puts a value under a key and hands back the value that was
/// there before. Keys are equal when they hold the same characters. The map is
/// borrowed mutably, so that no other thread changes it meanwhile.
#[verifier::external_body]
pub(crate) fn insert_findings(
    map: &mut DashMap<String, Vec<RiskFinding>>,
    path: String,
    findings: Vec<RiskFinding>,
) -> (r: Option<Vec<RiskFinding>>)
    ensures
        collected(*final(map)) == collected(*old(map)).insert(path@, findings@),
        match r {
            Some(previous) => collected(*old(map)).contains_key(path@) && collected(
                *old(map),
            )[path@] == previous@,
            None => !collected(*old(map)).contains_key(path@),
        },
{
    map.insert(path, findings)
}

/// Whether `pairs` are the keys and values of `map`, each key once, in some
/// order.
pub open spec fn lists_map(
    pairs: Seq<(String, Vec<RiskFinding>)>,
    map: Map<Seq<char>, Seq<RiskFinding>>,
) -> bool {
    &&& forall|i: int|
        0 <= i < pairs.len() ==> map.contains_key((#[trigger] pairs[i]).0@) && map[pairs[i].0@]
            == pairs[i].1@
    &&& forall|i: int, j: int|
        0 <= i < j < pairs.len() ==> (#[trigger] pairs[i]).0@ != (#[trigger] pairs[j]).0@
    &&& forall|p: Seq<char>| #[trigger]
        map.contains_key(p) ==> exists|i: int| 0 <= i < pairs.len() && (#[trigger] pairs[i]).0@ == p
}

/// `DashMap::into_iter` hands out each key with its value once. The order is
/// that of the hashes, which differs from run to run.
#[verifier::external_body]
pub(crate) fn into_pairs(map: DashMap<String, Vec<RiskFinding>>) -> (r: Vec<
    (String, Vec<RiskFinding>),
>)
    ensures
        lists_map(r@, collected(map)),
{
    map.into_iter().collect()
}

} // verus!
