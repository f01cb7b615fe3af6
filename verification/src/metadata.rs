//! The metadata extractor: converts the free-form key/value group into a
//! tag list, best-effort and non-fatal.
//!
//! A member that is not a leaf dataset (a sub-group, say) is skipped; a
//! leaf that is not string-typed keeps its name with a sentinel
//! placeholder value; only the group's existence is required, and that is
//! the orchestrator's check.

use crate::domain::{Metadata, MetadataTag};
use crate::raw::{MemberValue, MetaMember};
use vstd::prelude::*;

verus! {

/// The sentinel stored for a leaf dataset that is not string-typed.
pub open spec fn placeholder_value() -> Seq<char> {
    "(non-string)"@
}

/// The (name, value) views of a tag list.
pub open spec fn tag_views(tags: Seq<MetadataTag>) -> Seq<(Seq<char>, Seq<char>)> {
    tags.map_values(|t: MetadataTag| (t.name@, t.value@))
}

/// What one member contributes: a string leaf its value, a non-string
/// leaf the placeholder, anything else nothing.
pub open spec fn member_tags(m: MetaMember) -> Seq<(Seq<char>, Seq<char>)> {
    match m.value {
        MemberValue::Text(v) => seq![(m.name@, v@)],
        MemberValue::NonText => seq![(m.name@, placeholder_value())],
        MemberValue::NotADataset => Seq::empty(),
    }
}

/// The tag views the whole member list yields, in member-listing order.
pub open spec fn spec_tags(ms: Seq<MetaMember>) -> Seq<(Seq<char>, Seq<char>)>
    decreases ms.len(),
{
    if ms.len() == 0 {
        Seq::empty()
    } else {
        spec_tags(ms.drop_last()) + member_tags(ms.last())
    }
}

/// Converts the metadata group's member listing into the tag list:
/// string leaves keep their value, non-string leaves get the
/// `(non-string)` placeholder, everything else is skipped. Nothing here
/// fails: extraction is best-effort by design.
pub fn parse_metadata(members: &Vec<MetaMember>) -> (r: Metadata)
    ensures
        tag_views(r.tags@) == spec_tags(members@),
{
    let mut tags: Vec<MetadataTag> = Vec::new();
    for i in 0..members.len()
        invariant
            tag_views(tags@) == spec_tags(members@.take(i as int)),
    {
        let name = members[i].name.clone();
        match &members[i].value {
            MemberValue::Text(v) => {
                let value = v.clone();
                tags.push(MetadataTag { name, value });
            },
            MemberValue::NonText => {
                let value = String::from_str("(non-string)");
                tags.push(MetadataTag { name, value });
            },
            MemberValue::NotADataset => {},
        }
        proof {
            assert(members@.take(i + 1).drop_last() =~= members@.take(i as int));
            assert(members@.take(i + 1).last() == members@[i as int]);
            assert(tag_views(tags@) =~= spec_tags(members@.take(i + 1)));
        }
    }
    proof {
        assert(members@.take(members@.len() as int) =~= members@);
    }
    Metadata { tags }
}

} // verus!
