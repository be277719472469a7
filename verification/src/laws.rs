//! Crate-level laws: properties that hold across several functions, proved
//! from the state machine's specification functions.

use vstd::prelude::*;

use crate::app::{
    apply_update, eligible, index_of_name, merge_contacts, selected_option,
    step_contact_options, step_event, step_execute_selected, target_index, zero_unread, AppModel,
    ContactOption,
};
use crate::codec::is_response;
use crate::json::{jget, JsonValue};
use crate::types::{status_rank, ContactModel, EventModel, Key, MessageStatus, MsgModel};

verus! {

/// A payload is classified as a command response exactly when its outer
/// envelope carries a correlation identifier, whatever else it holds; the
/// events it decodes to are decided by the discriminator table alone.
pub proof fn lemma_classification(env: JsonValue)
    ensures
        is_response(env) <==> jget(env, "corrId"@) is Some,
{
}

/// Where a status update lands, the message there was eligible: the
/// target is in range, self-authored, not failed, and strictly older than
/// the update.
pub proof fn lemma_target_eligible(log: Seq<MsgModel>, st: MessageStatus)
    ensures
        target_index(log, st) >= 0 ==> 0 <= target_index(log, st) < log.len() && eligible(
            log[target_index(log, st)],
            st,
        ),
    decreases log.len(),
{
    if log.len() > 0 && !eligible(log.last(), st) {
        lemma_target_eligible(log.drop_last(), st);
        if target_index(log, st) >= 0 {
            assert(log.drop_last()[target_index(log, st)] == log[target_index(log, st)]);
        }
    }
}

/// Status monotonicity, one update: no message's delivery rank decreases,
/// and a failed message stays failed.
pub proof fn lemma_status_monotone(log: Seq<MsgModel>, st: MessageStatus, i: int)
    requires
        0 <= i < log.len(),
    ensures
        apply_update(log, st).len() == log.len(),
        status_rank(apply_update(log, st)[i].status) >= status_rank(log[i].status),
        log[i].status is Failed ==> apply_update(log, st)[i].status is Failed,
{
    lemma_target_eligible(log, st);
}

/// A whole sequence of status updates applied in order.
pub open spec fn apply_updates(log: Seq<MsgModel>, sts: Seq<MessageStatus>) -> Seq<MsgModel>
    decreases sts.len(),
{
    if sts.len() == 0 {
        log
    } else {
        apply_updates(apply_update(log, sts[0]), sts.drop_first())
    }
}

/// Status monotonicity, any sequence of updates: for every message the
/// delivery rank never regresses, and `Failed` is never overwritten.
pub proof fn lemma_status_monotone_seq(log: Seq<MsgModel>, sts: Seq<MessageStatus>, i: int)
    requires
        0 <= i < log.len(),
    ensures
        apply_updates(log, sts).len() == log.len(),
        status_rank(apply_updates(log, sts)[i].status) >= status_rank(log[i].status),
        log[i].status is Failed ==> apply_updates(log, sts)[i].status is Failed,
    decreases sts.len(),
{
    if sts.len() > 0 {
        lemma_status_monotone(log, sts[0], i);
        lemma_status_monotone_seq(apply_update(log, sts[0]), sts.drop_first(), i);
    }
}

/// No two contacts bear the same name.
pub open spec fn distinct_names(cs: Seq<ContactModel>) -> bool {
    forall|i: int, j: int| 0 <= i < j < cs.len() ==> cs[i].name != cs[j].name
}

/// Name lookup only reads names: two lists with the same names pointwise
/// agree on every lookup.
pub proof fn lemma_index_same_names(cs: Seq<ContactModel>, ds: Seq<ContactModel>, n: Seq<char>)
    requires
        cs.len() == ds.len(),
        forall|i: int| 0 <= i < cs.len() ==> cs[i].name == ds[i].name,
    ensures
        index_of_name(cs, n) == index_of_name(ds, n),
    decreases cs.len(),
{
    if cs.len() > 0 {
        assert forall|i: int| 0 <= i < cs.drop_first().len() implies cs.drop_first()[i].name
            == ds.drop_first()[i].name by {
            assert(cs.drop_first()[i] == cs[i + 1]);
            assert(ds.drop_first()[i] == ds[i + 1]);
        }
        lemma_index_same_names(cs.drop_first(), ds.drop_first(), n);
    }
}

/// In a list with distinct names, looking a contact's own name up finds
/// exactly it.
pub proof fn lemma_index_of_name_self(cs: Seq<ContactModel>, i: int)
    requires
        distinct_names(cs),
        0 <= i < cs.len(),
    ensures
        index_of_name(cs, cs[i].name) == i,
    decreases cs.len(),
{
    if i > 0 {
        assert(cs[0].name != cs[i].name);
        assert forall|a: int, b: int|
            0 <= a < b < cs.drop_first().len() implies cs.drop_first()[a].name
            != cs.drop_first()[b].name by {
            assert(cs.drop_first()[a] == cs[a + 1]);
            assert(cs.drop_first()[b] == cs[b + 1]);
        }
        assert(cs.drop_first()[i - 1] == cs[i]);
        lemma_index_of_name_self(cs.drop_first(), i - 1);
    }
}

/// Unread-merge idempotence: refreshing the contact list twice with the
/// same remote data, with no selection in between, gives the same unread
/// counts as refreshing once.
pub proof fn lemma_unread_merge_idempotent(cur: Seq<ContactModel>, remote: Seq<ContactModel>)
    requires
        distinct_names(remote),
    ensures
        merge_contacts(merge_contacts(cur, remote), remote) == merge_contacts(cur, remote),
{
    let m1 = merge_contacts(cur, remote);
    assert forall|i: int| 0 <= i < remote.len() implies merge_contacts(m1, remote)[i] == m1[i] by {
        assert(m1[i].name == remote[i].name);
        assert forall|j: int| 0 <= j < m1.len() implies m1[j].name == remote[j].name by {}
        assert forall|a: int, b: int| 0 <= a < b < m1.len() implies m1[a].name != m1[b].name by {}
        lemma_index_of_name_self(m1, i);
        lemma_index_same_names(m1, remote, remote[i].name);
        assert(index_of_name(m1, remote[i].name) == i);
    }
    assert(merge_contacts(m1, remote) =~= m1);
}

/// A refresh keeps contact names unique: the merged list bears exactly
/// the remote list's names.
pub proof fn lemma_merge_preserves_distinct(cur: Seq<ContactModel>, remote: Seq<ContactModel>)
    requires
        distinct_names(remote),
    ensures
        distinct_names(merge_contacts(cur, remote)),
        merge_contacts(cur, remote).len() == remote.len(),
        forall|i: int|
            0 <= i < remote.len() ==> merge_contacts(cur, remote)[i].name == remote[i].name,
{
}

/// Selecting a contact and then refreshing yields zero unread for it:
/// once its unread count is zero locally, a refresh keeps it zero.
pub proof fn lemma_select_then_refresh(
    cur: Seq<ContactModel>,
    remote: Seq<ContactModel>,
    n: Seq<char>,
    i: int,
)
    requires
        index_of_name(cur, n) >= 0,
        0 <= i < remote.len(),
        remote[i].name == n,
    ensures
        merge_contacts(zero_unread(cur, n), remote)[i].unread == 0,
{
    let k = index_of_name(cur, n);
    let z = zero_unread(cur, n);
    lemma_target_name(cur, n);
    assert(z[k].unread == 0);
    assert forall|j: int| 0 <= j < cur.len() implies z[j].name == cur[j].name by {}
    lemma_index_same_names(z, cur, n);
    assert(index_of_name(z, n) == k);
}

/// A successful name lookup lands on the name it looked for.
pub proof fn lemma_target_name(cs: Seq<ContactModel>, n: Seq<char>)
    ensures
        index_of_name(cs, n) >= 0 ==> 0 <= index_of_name(cs, n) < cs.len() && cs[index_of_name(
            cs,
            n,
        )].name == n,
    decreases cs.len(),
{
    if cs.len() > 0 && cs[0].name != n {
        lemma_target_name(cs.drop_first(), n);
        if index_of_name(cs, n) >= 0 {
            assert(cs.drop_first()[index_of_name(cs, n) - 1] == cs[index_of_name(cs, n)]);
        }
    }
}

/// The address two-phase flow: after "create new address" arms the
/// pending flag and queues the delete command, the first address-deleted
/// event queues exactly one create-address command and disarms the flag;
/// a second address-deleted event with the flag already clear changes
/// nothing.
pub proof fn lemma_address_two_phase(m: AppModel)
    ensures
        ({
            let armed = AppModel {
                invite_link: None,
                pending_new_address: true,
                outbox: m.outbox.push("/da"@),
                status: "Creating new address..."@,
                ..m
            };
            let after1 = step_event(armed, EventModel::AddressDeleted, Seq::empty());
            let after2 = step_event(after1, EventModel::AddressDeleted, Seq::empty());
            &&& !after1.pending_new_address
            &&& after1.outbox == armed.outbox.push("/ad"@)
            &&& after2 == after1
        }),
{
}

/// The confirmation latch: with the latch unarmed, activating a
/// destructive action only arms it and performs nothing; activating the
/// same action again performs exactly one delete or clear command; a
/// cancel in between disarms the latch and performs nothing.
pub proof fn lemma_confirmation_latch(m: AppModel)
    requires
        m.confirm_action is None,
        selected_option(m).spec_destructive(),
        m.contact_for_options is Some,
    ensures
        ({
            let name = m.contact_for_options->0;
            let armed = step_execute_selected(m);
            let done = step_execute_selected(armed);
            let cancelled = step_contact_options(armed, Key::Esc);
            &&& armed.confirm_action == Some(selected_option(m))
            &&& armed.contacts == m.contacts
            &&& armed.messages == m.messages
            &&& armed.outbox == m.outbox
            &&& done.outbox.len() == m.outbox.len() + 1
            &&& (selected_option(m) is DeleteContact ==> done.outbox == m.outbox.push(
                "/d '"@ + name + "'"@,
            ))
            &&& (selected_option(m) is ClearChat ==> done.outbox == m.outbox.push(
                "/clear '"@ + name + "'"@,
            ))
            &&& done.confirm_action is None
            &&& cancelled.confirm_action is None
            &&& cancelled.outbox == m.outbox
            &&& cancelled.contacts == m.contacts
            &&& cancelled.messages == m.messages
        }),
{
    let armed = step_execute_selected(m);
    assert(selected_option(armed) == selected_option(m));
}

} // verus!
