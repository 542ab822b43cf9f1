use vstd::prelude::*;

use crate::records::{
    protocol_name, CloudFlareDNSListResponseResult, CloudFlareUpdateDNSRequest,
    UpdateRequestView, UpdateTarget,
};

verus! {

/// A listed record is the target's record when its type and name are exactly
/// the target's.
pub open spec fn is_target_record(t: UpdateTarget, r: CloudFlareDNSListResponseResult) -> bool {
    r.ttype@ == protocol_name(t.record_type) && r.name@ == t.domain@
}

/// A record needs an update when it is the target's record and its content
/// differs from the address.
pub open spec fn needs_update(
    address: Seq<char>,
    t: UpdateTarget,
    r: CloudFlareDNSListResponseResult,
) -> bool {
    is_target_record(t, r) && r.content@ != address
}

/// The update that sets record `r` of target `t` to the address.
pub open spec fn update_for(
    address: Seq<char>,
    t: UpdateTarget,
    r: CloudFlareDNSListResponseResult,
) -> UpdateRequestView {
    UpdateRequestView {
        content: address,
        name: t.domain@,
        ttype: protocol_name(t.record_type),
        id: r.id@,
    }
}

/// The updates that one target's listed records call for, in the order in
/// which the records were listed: one for each record that needs it.
pub open spec fn planned_updates(
    address: Seq<char>,
    t: UpdateTarget,
    records: Seq<CloudFlareDNSListResponseResult>,
) -> Seq<UpdateRequestView>
    decreases records.len(),
{
    if records.len() == 0 {
        Seq::empty()
    } else {
        let earlier = planned_updates(address, t, records.drop_last());
        let r = records.last();
        if needs_update(address, t, r) {
            earlier.push(update_for(address, t, r))
        } else {
            earlier
        }
    }
}

/// Whether record `r`, listed for target `t`, must be set to `address`.
pub fn record_needs_update(
    address: &String,
    t: &UpdateTarget,
    r: &CloudFlareDNSListResponseResult,
) -> (b: bool)
    ensures
        b == needs_update(address@, *t, *r),
{
    let wanted_type = t.record_type.to_string();
    if wanted_type != r.ttype || t.domain != r.name {
        return false;
    }
    r.content != *address
}

/// The request that sets record `r` of target `t` to `address`.
pub fn update_request(
    address: &String,
    t: &UpdateTarget,
    r: &CloudFlareDNSListResponseResult,
) -> (q: CloudFlareUpdateDNSRequest)
    ensures
        q@ == update_for(address@, *t, *r),
{
    CloudFlareUpdateDNSRequest {
        content: address.clone(),
        name: t.domain.clone(),
        ttype: t.record_type.to_string(),
        id: r.id.clone(),
    }
}

/// The updates that target `t`'s listed records call for when the current
/// address is `address`.
pub fn pending_updates(
    address: &String,
    t: &UpdateTarget,
    records: &Vec<CloudFlareDNSListResponseResult>,
) -> (out: Vec<CloudFlareUpdateDNSRequest>)
    ensures
        out@.map_values(|q: CloudFlareUpdateDNSRequest| q@) == planned_updates(
            address@,
            *t,
            records@,
        ),
{
    let mut out: Vec<CloudFlareUpdateDNSRequest> = Vec::new();
    let mut i: usize = 0;
    while i < records.len()
        invariant
            i <= records@.len(),
            out@.map_values(|q: CloudFlareUpdateDNSRequest| q@) == planned_updates(
                address@,
                *t,
                records@.subrange(0, i as int),
            ),
        decreases records@.len() - i,
    {
        let r = &records[i];
        assert(records@.subrange(0, i + 1).drop_last() =~= records@.subrange(0, i as int));
        if record_needs_update(address, t, r) {
            let q = update_request(address, t, r);
            out.push(q);
            assert(out@.map_values(|q: CloudFlareUpdateDNSRequest| q@) =~= planned_updates(
                address@,
                *t,
                records@.subrange(0, i as int),
            ).push(q@));
        }
        i = i + 1;
    }
    assert(records@.subrange(0, records@.len() as int) =~= records@);
    out
}

/// The updates of two listings, one after the other, are the updates of
/// each in turn.
pub proof fn lemma_planned_concat(
    address: Seq<char>,
    t: UpdateTarget,
    xs: Seq<CloudFlareDNSListResponseResult>,
    ys: Seq<CloudFlareDNSListResponseResult>,
)
    ensures
        planned_updates(address, t, xs + ys) == planned_updates(address, t, xs)
            + planned_updates(address, t, ys),
    decreases ys.len(),
{
    if ys.len() == 0 {
        assert(xs + ys =~= xs);
        assert(planned_updates(address, t, xs) + planned_updates(address, t, ys) =~= planned_updates(
            address,
            t,
            xs,
        ));
    } else {
        assert((xs + ys).drop_last() =~= xs + ys.drop_last());
        assert((xs + ys).last() == ys.last());
        lemma_planned_concat(address, t, xs, ys.drop_last());
        let r = ys.last();
        if needs_update(address, t, r) {
            assert(planned_updates(address, t, xs) + planned_updates(address, t, ys) =~= (
            planned_updates(address, t, xs) + planned_updates(address, t, ys.drop_last())).push(
                update_for(address, t, r),
            ));
        }
    }
}

/// Wherever it stands in a listing, a record that needs no update adds no
/// update call.
pub proof fn lemma_skipped_record_adds_nothing(
    address: Seq<char>,
    t: UpdateTarget,
    before: Seq<CloudFlareDNSListResponseResult>,
    r: CloudFlareDNSListResponseResult,
    after: Seq<CloudFlareDNSListResponseResult>,
)
    requires
        !needs_update(address, t, r),
    ensures
        planned_updates(address, t, before + seq![r] + after) == planned_updates(
            address,
            t,
            before + after,
        ),
{
    lemma_planned_concat(address, t, before + seq![r], after);
    lemma_planned_concat(address, t, before, seq![r]);
    lemma_planned_concat(address, t, before, after);
    assert(seq![r].drop_last() =~= Seq::<CloudFlareDNSListResponseResult>::empty());
    assert(seq![r].last() == r);
    assert(planned_updates(address, t, Seq::empty()) == Seq::<UpdateRequestView>::empty());
    assert(planned_updates(address, t, before) + planned_updates(address, t, seq![r])
        =~= planned_updates(address, t, before));
}

/// A record that is already the target's record with the current address as
/// its content gets no update call, wherever it stands in the listing.
pub proof fn lemma_current_record_not_updated(
    address: Seq<char>,
    t: UpdateTarget,
    before: Seq<CloudFlareDNSListResponseResult>,
    r: CloudFlareDNSListResponseResult,
    after: Seq<CloudFlareDNSListResponseResult>,
)
    requires
        r.ttype@ == protocol_name(t.record_type),
        r.name@ == t.domain@,
        r.content@ == address,
    ensures
        planned_updates(address, t, before + seq![r] + after) == planned_updates(
            address,
            t,
            before + after,
        ),
{
    lemma_skipped_record_adds_nothing(address, t, before, r, after);
}

/// A record whose type or name is not exactly the target's gets no update
/// call, whatever its content and wherever it stands in the listing.
pub proof fn lemma_foreign_record_not_updated(
    address: Seq<char>,
    t: UpdateTarget,
    before: Seq<CloudFlareDNSListResponseResult>,
    r: CloudFlareDNSListResponseResult,
    after: Seq<CloudFlareDNSListResponseResult>,
)
    requires
        r.ttype@ != protocol_name(t.record_type) || r.name@ != t.domain@,
    ensures
        planned_updates(address, t, before + seq![r] + after) == planned_updates(
            address,
            t,
            before + after,
        ),
{
    lemma_skipped_record_adds_nothing(address, t, before, r, after);
}

/// A record of the target's type and name whose content differs from the
/// address gets exactly one update call, in its place in the listing, which
/// sets the content to the address, names the record by its identifier, and
/// carries the target's name and type.
pub proof fn lemma_stale_record_updated_once(
    address: Seq<char>,
    t: UpdateTarget,
    before: Seq<CloudFlareDNSListResponseResult>,
    r: CloudFlareDNSListResponseResult,
    after: Seq<CloudFlareDNSListResponseResult>,
)
    requires
        r.ttype@ == protocol_name(t.record_type),
        r.name@ == t.domain@,
        r.content@ != address,
    ensures
        planned_updates(address, t, before + seq![r] + after) == planned_updates(
            address,
            t,
            before,
        ) + seq![update_for(address, t, r)] + planned_updates(address, t, after),
        update_for(address, t, r).content == address,
        update_for(address, t, r).id == r.id@,
        update_for(address, t, r).name == t.domain@,
        update_for(address, t, r).ttype == protocol_name(t.record_type),
{
    lemma_planned_concat(address, t, before + seq![r], after);
    lemma_planned_concat(address, t, before, seq![r]);
    assert(seq![r].drop_last() =~= Seq::<CloudFlareDNSListResponseResult>::empty());
    assert(seq![r].last() == r);
    assert(planned_updates(address, t, Seq::empty()) == Seq::<UpdateRequestView>::empty());
    assert(planned_updates(address, t, seq![r]) =~= seq![update_for(address, t, r)]);
}

} // verus!
