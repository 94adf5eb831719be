//! The life of a campaign as a sequence of donations and withdrawals, and
//! what holds of the record after any such sequence.

use vstd::prelude::*;
use crate::instructions::donate::Donate;
use crate::instructions::withdraw::Withdraw;
use crate::state::campaign::Campaign;
use crate::state::donor::Donor;

verus! {

/// One accepted operation on a campaign.
#[derive(Clone, Copy, Debug, PartialEq, Eq, Structural)]
pub enum Event {
    /// A donation of the given amount.
    Donation(u64),
    /// A withdrawal of the whole escrow balance.
    Withdrawal,
}

/// Whether the record admits the event: a donation must be positive and
/// fit into the running total, a withdrawal needs the threshold flag.
pub open spec fn admits(campaign: Campaign, event: Event) -> bool {
    match event {
        Event::Donation(amount) => 0 < amount && campaign.can_accept(amount),
        Event::Withdrawal => campaign.threshold_reached,
    }
}

/// The record after the event.
pub open spec fn after_event(campaign: Campaign, event: Event) -> Campaign {
    match event {
        Event::Donation(amount) => campaign.after_donation(amount),
        Event::Withdrawal => campaign.after_withdrawal(),
    }
}

/// The record after the events, taken in order.
pub open spec fn after_events(campaign: Campaign, events: Seq<Event>) -> Campaign
    decreases events.len(),
{
    if events.len() == 0 {
        campaign
    } else {
        after_event(after_events(campaign, events.drop_last()), events.last())
    }
}

/// Whether the record admits the events, each at its turn.
pub open spec fn admits_all(campaign: Campaign, events: Seq<Event>) -> bool
    decreases events.len(),
{
    events.len() == 0 || (admits_all(campaign, events.drop_last()) && admits(
        after_events(campaign, events.drop_last()),
        events.last(),
    ))
}

/// The sum of the donations among the events.
pub open spec fn total_donated(events: Seq<Event>) -> int
    decreases events.len(),
{
    if events.len() == 0 {
        0
    } else {
        total_donated(events.drop_last()) + match events.last() {
            Event::Donation(amount) => amount as int,
            Event::Withdrawal => 0,
        }
    }
}

/// The sum of what the withdrawals among the events took out of the running
/// total: for each withdrawal, the total that the record showed just before.
pub open spec fn total_withdrawn(campaign: Campaign, events: Seq<Event>) -> int
    decreases events.len(),
{
    if events.len() == 0 {
        0
    } else {
        total_withdrawn(campaign, events.drop_last()) + match events.last() {
            Event::Donation(_) => 0,
            Event::Withdrawal => after_events(campaign, events.drop_last()).amount_donated as int,
        }
    }
}

/// The number of withdrawals among the events.
pub open spec fn withdrawals(events: Seq<Event>) -> int
    decreases events.len(),
{
    if events.len() == 0 {
        0
    } else {
        withdrawals(events.drop_last()) + match events.last() {
            Event::Donation(_) => 0int,
            Event::Withdrawal => 1int,
        }
    }
}

/// The number of donations among the events that raise the threshold flag.
pub open spec fn crossings(campaign: Campaign, events: Seq<Event>) -> int
    decreases events.len(),
{
    if events.len() == 0 {
        0
    } else {
        crossings(campaign, events.drop_last()) + match events.last() {
            Event::Donation(amount) => if after_events(
                campaign,
                events.drop_last(),
            ).crosses_threshold(amount) {
                1int
            } else {
                0int
            },
            Event::Withdrawal => 0int,
        }
    }
}

/// One if the flag is raised, zero if not.
pub open spec fn raised(flag: bool) -> int {
    if flag {
        1
    } else {
        0
    }
}

/// The balance of the escrow account after the event: a donation adds its
/// amount, a withdrawal takes everything.
pub open spec fn escrow_after_event(balance: u64, event: Event) -> u64 {
    match event {
        Event::Donation(amount) => (balance + amount) as u64,
        Event::Withdrawal => 0,
    }
}

/// The balance of the escrow account after the events, taken in order.
pub open spec fn escrow_after_events(balance: u64, events: Seq<Event>) -> u64
    decreases events.len(),
{
    if events.len() == 0 {
        balance
    } else {
        escrow_after_event(escrow_after_events(balance, events.drop_last()), events.last())
    }
}

/// A donor's record after the event, where a donation is the donor's own:
/// it is added to the record, while a withdrawal leaves the record as it is.
pub open spec fn donor_after_event(record: Donor, event: Event) -> Donor {
    match event {
        Event::Donation(amount) => record.after_donation(amount),
        Event::Withdrawal => record,
    }
}

/// A donor's record after the events, taken in order.
pub open spec fn donor_after_events(record: Donor, events: Seq<Event>) -> Donor
    decreases events.len(),
{
    if events.len() == 0 {
        record
    } else {
        donor_after_event(donor_after_events(record, events.drop_last()), events.last())
    }
}

/// A donation that is accepted is an event that the campaign's record
/// admits. The campaign's record, the escrow balance and the donor's record
/// afterwards are those after that event.
pub proof fn lemma_accepted_donation_is_event(ctx: Donate, amount: u64)
    requires
        ctx.rejection(amount) is None,
    ensures
        admits(ctx.campaign, Event::Donation(amount)),
        ctx.accepted(amount).campaign == after_event(ctx.campaign, Event::Donation(amount)),
        ctx.accepted(amount).campaign_token_account.amount == escrow_after_event(
            ctx.campaign_token_account.amount,
            Event::Donation(amount),
        ),
        ctx.donor_pda matches Some(record) ==> ctx.accepted(amount).donor_pda == Some(
            donor_after_event(record, Event::Donation(amount)),
        ),
{
}

/// A withdrawal that is accepted is an event that the campaign's record
/// admits. The campaign's record and the escrow balance afterwards are those
/// after that event. No donor's record is among the things that a withdrawal
/// works on.
pub proof fn lemma_accepted_withdrawal_is_event(ctx: Withdraw)
    requires
        ctx.rejection() is None,
    ensures
        admits(ctx.campaign, Event::Withdrawal),
        ctx.accepted().campaign == after_event(ctx.campaign, Event::Withdrawal),
        ctx.accepted().campaign_token_account.amount == escrow_after_event(
            ctx.campaign_token_account.amount,
            Event::Withdrawal,
        ),
{
}

/// After any admitted sequence of donations and withdrawals, the record's
/// total is what it was at the start, plus the sum of all donations, minus
/// what the withdrawals in between took out.
pub proof fn lemma_total_is_donated_less_withdrawn(campaign: Campaign, events: Seq<Event>)
    requires
        admits_all(campaign, events),
    ensures
        after_events(campaign, events).amount_donated == campaign.amount_donated + total_donated(
            events,
        ) - total_withdrawn(campaign, events),
    decreases events.len(),
{
    if events.len() > 0 {
        lemma_total_is_donated_less_withdrawn(campaign, events.drop_last());
    }
}

/// Events change the running total and the threshold flag and nothing else:
/// the creator, the texts, the target, the asset type and the bump of a
/// record are for good.
pub proof fn lemma_identity_is_kept(campaign: Campaign, events: Seq<Event>)
    ensures
        after_events(campaign, events).creator == campaign.creator,
        after_events(campaign, events).name == campaign.name,
        after_events(campaign, events).description == campaign.description,
        after_events(campaign, events).target_amount == campaign.target_amount,
        after_events(campaign, events).mint == campaign.mint,
        after_events(campaign, events).bump == campaign.bump,
    decreases events.len(),
{
    if events.len() > 0 {
        lemma_identity_is_kept(campaign, events.drop_last());
    }
}

/// An escrow account that holds what the record shows at the start holds
/// what the record shows after any admitted sequence of events.
pub proof fn lemma_escrow_holds_the_total(campaign: Campaign, balance: u64, events: Seq<Event>)
    requires
        balance == campaign.amount_donated,
        admits_all(campaign, events),
    ensures
        escrow_after_events(balance, events) == after_events(campaign, events).amount_donated,
    decreases events.len(),
{
    if events.len() > 0 {
        lemma_escrow_holds_the_total(campaign, balance, events.drop_last());
    }
}

/// A valid record stays valid through any admitted sequence of events. In
/// particular the threshold flag is raised at the end exactly if the total
/// has reached the target.
pub proof fn lemma_validity_is_kept(campaign: Campaign, events: Seq<Event>)
    requires
        campaign.is_valid(),
        admits_all(campaign, events),
    ensures
        after_events(campaign, events).is_valid(),
        after_events(campaign, events).threshold_reached <==> after_events(
            campaign,
            events,
        ).amount_donated >= after_events(campaign, events).target_amount,
    decreases events.len(),
{
    if events.len() > 0 {
        lemma_validity_is_kept(campaign, events.drop_last());
    }
}

/// The threshold flag is raised once in each round: over any admitted
/// sequence of events, the donations that raise the flag are as many as the
/// withdrawals, give or take the one round that is open at the start or at
/// the end. Between two withdrawals exactly one donation raises the flag,
/// and a donation to a campaign whose flag is raised never does.
pub proof fn lemma_threshold_raised_once_per_round(campaign: Campaign, events: Seq<Event>)
    requires
        admits_all(campaign, events),
    ensures
        crossings(campaign, events) - withdrawals(events) == raised(
            after_events(campaign, events).threshold_reached,
        ) - raised(campaign.threshold_reached),
    decreases events.len(),
{
    if events.len() > 0 {
        lemma_threshold_raised_once_per_round(campaign, events.drop_last());
    }
}

/// A donor's record shows what it showed at the start plus the sum of the
/// donor's donations, however many withdrawals the campaign has seen in
/// between.
pub proof fn lemma_donor_record_accumulates(record: Donor, events: Seq<Event>)
    requires
        record.amount_donated + total_donated(events) <= u64::MAX,
    ensures
        donor_after_events(record, events).amount_donated == record.amount_donated
            + total_donated(events),
        donor_after_events(record, events).donor == record.donor,
        donor_after_events(record, events).campaign == record.campaign,
    decreases events.len(),
{
    if events.len() > 0 {
        lemma_total_donated_is_not_negative(events.drop_last());
        lemma_donor_record_accumulates(record, events.drop_last());
    }
}

/// The sum of the donations among any events is not negative.
pub proof fn lemma_total_donated_is_not_negative(events: Seq<Event>)
    ensures
        0 <= total_donated(events),
    decreases events.len(),
{
    if events.len() > 0 {
        lemma_total_donated_is_not_negative(events.drop_last());
    }
}

} // verus!
