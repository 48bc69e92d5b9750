use vstd::prelude::*;

verus! {

/// The topics whose subscription the swarm accepted, in configuration order.
pub open spec fn accepted_topics(topics: Seq<String>, accepted: Seq<bool>) -> Seq<Seq<char>>
    decreases topics.len(),
{
    if topics.len() == 0 || accepted.len() != topics.len() {
        Seq::empty()
    } else {
        let rest = accepted_topics(topics.drop_last(), accepted.drop_last());
        if accepted.last() {
            rest.push(topics.last()@)
        } else {
            rest
        }
    }
}

/// The views of a run of strings.
pub open spec fn texts(v: Seq<String>) -> Seq<Seq<char>> {
    v.map_values(|s: String| s@)
}

/// Records the outcome of subscribing to each configured topic: the topics that
/// the swarm accepted make up the active set, in configuration order; the others
/// are left out.
pub fn subscribed_topics(topics: &Vec<String>, accepted: &Vec<bool>) -> (r: Vec<String>)
    requires
        topics@.len() == accepted@.len(),
    ensures
        texts(r@) == accepted_topics(topics@, accepted@),
{
    let mut r: Vec<String> = Vec::new();
    let mut i: usize = 0;
    while i < topics.len()
        invariant
            topics@.len() == accepted@.len(),
            0 <= i <= topics@.len(),
            texts(r@) == accepted_topics(topics@.subrange(0, i as int), accepted@.subrange(0, i as int)),
        decreases topics@.len() - i,
    {
        let ghost before = r@;
        assert(topics@.subrange(0, i + 1).drop_last() =~= topics@.subrange(0, i as int));
        assert(accepted@.subrange(0, i + 1).drop_last() =~= accepted@.subrange(0, i as int));
        if accepted[i] {
            r.push(topics[i].clone());
            assert(texts(r@) =~= texts(before).push(topics@[i as int]@));
        }
        i = i + 1;
    }
    assert(topics@.subrange(0, i as int) =~= topics@);
    assert(accepted@.subrange(0, i as int) =~= accepted@);
    r
}

} // verus!
