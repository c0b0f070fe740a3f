use vstd::prelude::*;

verus! {

/// A field of a family config that its producer set explicitly.
#[derive(Debug, Clone, Copy, PartialEq, Eq, Structural)]
pub enum IpField {
    Enabled,
    Dhcp,
    Autoconf,
    Addresses,
    AutoDns,
    AutoGateway,
    AutoRoutes,
    AutoTableId,
}

/// The declared fields of `base` followed by those of `patch` it lacks, each
/// once, in order of first appearance.
pub open spec fn merged_fields(base: Seq<IpField>, patch: Seq<IpField>) -> Seq<IpField>
    decreases patch.len(),
{
    if patch.len() == 0 {
        base
    } else {
        let r = merged_fields(base, patch.drop_last());
        if r.contains(patch.last()) {
            r
        } else {
            r.push(patch.last())
        }
    }
}

/// Whether `f` is in the list.
pub fn field_declared(list: &Vec<IpField>, f: IpField) -> (r: bool)
    ensures
        r == list@.contains(f),
{
    let mut i: usize = 0;
    while i < list.len()
        invariant
            i <= list@.len(),
            forall|k: int| 0 <= k < i ==> list@[k] != f,
        decreases list@.len() - i,
    {
        if list[i] == f {
            return true;
        }
        i += 1;
    }
    false
}

/// Adds to `base` each field of `patch` it does not hold yet.
pub fn merge_fields(base: &mut Vec<IpField>, patch: &Vec<IpField>)
    ensures
        final(base)@ == merged_fields(old(base)@, patch@),
{
    let ghost b0 = base@;
    let mut i: usize = 0;
    while i < patch.len()
        invariant
            i <= patch@.len(),
            base@ == merged_fields(b0, patch@.subrange(0, i as int)),
        decreases patch@.len() - i,
    {
        let f = patch[i];
        proof {
            let s = patch@.subrange(0, i as int + 1);
            assert(s.drop_last() =~= patch@.subrange(0, i as int));
            assert(s.last() == f);
        }
        if !field_declared(base, f) {
            base.push(f);
        }
        i += 1;
    }
    assert(patch@.subrange(0, patch@.len() as int) =~= patch@);
}

} // verus!
