//! The bookkeeping of the mint trigger: agreements that wait for their
//! on-chain payment, and what a confirmed mint does to them and to the status
//! counters.
use vstd::prelude::*;
use crate::error::TimeModuleError;
use crate::types::{B256, ModuleStatus, MintEvent, WorkAgreement, WorkNftMetadata};
use crate::trusted::{be_value, decimal, keccak256_digest, u256_decimal};
use crate::waku_listener::after_forward;

verus! {

broadcast use vstd::array::group_array_axioms;

/// How often the mint trigger looks at its pending agreements, in seconds
/// (about one Logos block).
pub const PENDING_POLL_INTERVAL_SECS: u64 = 12;

/// An agreement received from Waku, with the hash that a confirming
/// `MintEvent` will carry.
#[derive(Debug, Clone)]
pub struct PendingAgreement {
    pub agreement: WorkAgreement,
    pub agreement_hash: B256,
}

/// The test that keeps an entry pending when a mint with agreement hash
/// `confirmed` is observed: its own hash differs.
pub open spec fn unconfirmed_by(confirmed: Seq<u8>) -> spec_fn(PendingAgreement) -> bool {
    |e: PendingAgreement| e.agreement_hash@ != confirmed
}

/// The entries that stay pending after a mint with agreement hash `confirmed`:
/// those whose hash differs, in their order.
pub open spec fn still_pending(entries: Seq<PendingAgreement>, confirmed: Seq<u8>) -> Seq<PendingAgreement> {
    entries.filter(unconfirmed_by(confirmed))
}

/// Whether two 32-byte words are equal, byte by byte.
pub fn same_word(a: &B256, b: &B256) -> (same: bool)
    ensures
        same == (a@ == b@),
{
    let mut i: usize = 0;
    while i < 32
        invariant
            0 <= i <= 32,
            a@.len() == 32,
            b@.len() == 32,
            forall|j: int| 0 <= j < i ==> a@[j] == b@[j],
        decreases 32 - i,
    {
        if a[i] != b[i] {
            return false;
        }
        i = i + 1;
    }
    assert(a@ =~= b@);
    true
}

/// Pending agreements waiting for on-chain payment confirmation, in the order
/// they were received.
pub struct PendingAgreements {
    entries: Vec<PendingAgreement>,
}

impl View for PendingAgreements {
    type V = Seq<PendingAgreement>;

    closed spec fn view(&self) -> Seq<PendingAgreement> {
        self.entries@
    }
}

impl PendingAgreements {
    /// No agreement pending.
    pub fn new() -> (pending: Self)
        ensures
            pending@ == Seq::<PendingAgreement>::empty(),
    {
        PendingAgreements { entries: Vec::new() }
    }

    /// How many agreements wait.
    pub fn len(&self) -> (n: usize)
        ensures
            n == self@.len(),
    {
        self.entries.len()
    }

    /// Whether no agreement waits.
    pub fn is_empty(&self) -> (empty: bool)
        ensures
            empty == (self@.len() == 0),
    {
        self.entries.len() == 0
    }

    /// The waiting agreements, oldest first.
    pub fn entries(&self) -> (entries: &Vec<PendingAgreement>)
        ensures
            entries@ == self@,
    {
        &self.entries
    }

    /// Records an agreement received from Waku: it joins the end of the queue
    /// with the hash of its encoding `encoded`.
    pub fn receive(&mut self, agreement: WorkAgreement, encoded: &[u8])
        ensures
            final(self)@.len() == old(self)@.len() + 1,
            final(self)@.drop_last() == old(self)@,
            final(self)@.last().agreement == agreement,
            final(self)@.last().agreement_hash@ == keccak256_digest(encoded@),
    {
        let agreement_hash = WorkAgreement::agreement_hash(encoded);
        self.entries.push(PendingAgreement { agreement, agreement_hash });
        assert(self.entries@.drop_last() =~= old(self).entries@);
    }

    /// Drops every agreement whose hash is `agreement_hash`, the hash that a
    /// confirmed `MintEvent` carries; the others stay, in their order.
    pub fn confirm(&mut self, agreement_hash: &B256)
        ensures
            final(self)@ == still_pending(old(self)@, agreement_hash@),
    {
        let ghost orig = self.entries@;
        let ghost pred = unconfirmed_by(agreement_hash@);
        let mut i: usize = 0;
        let ghost mut j: int = 0;
        assert(orig.take(0) =~= Seq::<PendingAgreement>::empty());
        assert(self.entries@.subrange(0, 0) =~= orig.take(0).filter(pred)) by {
            reveal(Seq::filter);
        }
        assert(self.entries@.subrange(0, self.entries@.len() as int) =~= orig.skip(0));
        while i < self.entries.len()
            invariant
                0 <= j <= orig.len(),
                i <= self.entries@.len(),
                pred == unconfirmed_by(agreement_hash@),
                self.entries@.subrange(0, i as int) == orig.take(j).filter(pred),
                self.entries@.subrange(i as int, self.entries@.len() as int) == orig.skip(j),
            decreases self.entries@.len() - i,
        {
            let ghost before = self.entries@;
            assert(before.subrange(i as int, before.len() as int).len() == orig.skip(j).len());
            assert(j < orig.len());
            let ghost tail = before.subrange(i as int, before.len() as int);
            assert(orig.skip(j + 1) =~= orig.skip(j).drop_first());
            assert(before[i as int] == orig[j]) by {
                assert(before.subrange(i as int, before.len() as int)[0] == orig.skip(j)[0]);
            }
            assert(orig.take(j + 1) =~= orig.take(j).push(orig[j]));
            proof {
                orig.take(j).lemma_filter_push(orig[j], pred);
            }
            if same_word(&self.entries[i].agreement_hash, agreement_hash) {
                self.entries.remove(i);
                assert(self.entries@.subrange(0, i as int) =~= before.subrange(0, i as int));
                assert(self.entries@.subrange(i as int, self.entries@.len() as int)
                    =~= tail.drop_first());
            } else {
                i = i + 1;
                assert(self.entries@.subrange(0, i as int)
                    =~= before.subrange(0, i - 1).push(before[i - 1]));
                assert(self.entries@.subrange(i as int, self.entries@.len() as int)
                    =~= tail.drop_first());
            }
            proof {
                j = j + 1;
            }
        }
        assert(j == orig.len());
        assert(orig.take(j) =~= orig);
        assert(self.entries@ =~= self.entries@.subrange(0, i as int));
    }
}

/// What the mint trigger's run loop can see next.
pub enum MintTriggerEvent {
    /// An agreement arrived from the Waku listener, with its JSON encoding.
    Received { agreement: WorkAgreement, encoded: Vec<u8> },
    /// The channel from the listener dropped this many agreements.
    Lagged(u64),
    /// The channel from the listener is closed.
    Closed,
    /// The poll interval elapsed.
    PollTimer,
}

/// What the mint trigger's run loop does next.
pub enum MintTriggerAction {
    /// Wait for the next event.
    Continue,
    /// Query the chain for `MintEvent` logs of the pending agreements.
    QueryChain,
    /// Leave the loop with this error.
    Stop(TimeModuleError),
}

/// One turn of the mint trigger's run loop: a received agreement joins the
/// pending queue; a lagging channel changes nothing; a closed channel ends
/// the loop with `ChannelClosed`; at each poll the chain is queried when some
/// agreement is pending.
pub fn mint_trigger_step(pending: &mut PendingAgreements, event: MintTriggerEvent) -> (action: MintTriggerAction)
    ensures
        match event {
            MintTriggerEvent::Received { agreement, encoded } => {
                &&& action is Continue
                &&& final(pending)@.len() == old(pending)@.len() + 1
                &&& final(pending)@.drop_last() == old(pending)@
                &&& final(pending)@.last().agreement == agreement
                &&& final(pending)@.last().agreement_hash@ == keccak256_digest(encoded@)
            },
            MintTriggerEvent::Lagged(_) => action is Continue && final(pending)@ == old(pending)@,
            MintTriggerEvent::Closed => {
                &&& action matches MintTriggerAction::Stop(TimeModuleError::ChannelClosed)
                &&& final(pending)@ == old(pending)@
            },
            MintTriggerEvent::PollTimer => {
                &&& final(pending)@ == old(pending)@
                &&& if old(pending)@.len() == 0 { action is Continue } else { action is QueryChain }
            },
        },
{
    match event {
        MintTriggerEvent::Received { agreement, encoded } => {
            pending.receive(agreement, encoded.as_slice());
            MintTriggerAction::Continue
        },
        MintTriggerEvent::Lagged(_) => MintTriggerAction::Continue,
        MintTriggerEvent::Closed => MintTriggerAction::Stop(TimeModuleError::ChannelClosed),
        MintTriggerEvent::PollTimer => {
            if pending.is_empty() {
                MintTriggerAction::Continue
            } else {
                MintTriggerAction::QueryChain
            }
        },
    }
}

/// The status counters after a mint is confirmed: one more mint observed, the
/// mint's block is the last seen, and one agreement fewer is pending (never
/// below zero).
pub open spec fn after_mint(status: ModuleStatus, event: MintEvent) -> ModuleStatus {
    ModuleStatus {
        total_mints_observed: (status.total_mints_observed + 1) as u64,
        last_block_seen: event.block_number,
        agreements_pending: if status.agreements_pending > 0 {
            (status.agreements_pending - 1) as usize
        } else {
            0
        },
        ..status
    }
}

/// Updates the status counters for a confirmed mint.
pub fn record_mint(status: &mut ModuleStatus, event: &MintEvent)
    requires
        old(status).total_mints_observed < u64::MAX,
    ensures
        *final(status) == after_mint(*old(status), *event),
{
    status.total_mints_observed = status.total_mints_observed + 1;
    status.last_block_seen = event.block_number;
    if status.agreements_pending > 0 {
        status.agreements_pending = status.agreements_pending - 1;
    }
}

/// Called when a MintEvent is confirmed on the Logos blockchain: the status
/// counters record the mint and the agreements that it pays for leave the
/// pending queue.
pub fn on_mint_confirmed(pending: &mut PendingAgreements, status: &mut ModuleStatus, event: &MintEvent)
    requires
        old(status).total_mints_observed < u64::MAX,
    ensures
        *final(status) == after_mint(*old(status), *event),
        final(pending)@ == still_pending(old(pending)@, event.agreement_hash@),
{
    record_mint(status, event);
    pending.confirm(&event.agreement_hash);
}

/// The pending queue after the mints `events` are confirmed in order.
pub open spec fn pending_after_mints(entries: Seq<PendingAgreement>, events: Seq<MintEvent>) -> Seq<PendingAgreement>
    decreases events.len(),
{
    if events.len() == 0 {
        entries
    } else {
        still_pending(pending_after_mints(entries, events.drop_last()), events.last().agreement_hash@)
    }
}

/// The status counters after the mints `events` are confirmed in order.
pub open spec fn status_after_mints(status: ModuleStatus, events: Seq<MintEvent>) -> ModuleStatus
    decreases events.len(),
{
    if events.len() == 0 {
        status
    } else {
        after_mint(status_after_mints(status, events.drop_last()), events.last())
    }
}

/// The test that keeps an entry pending through the mints `events`: its hash
/// is the agreement hash of none of them.
pub open spec fn paid_by_none(events: Seq<MintEvent>) -> spec_fn(PendingAgreement) -> bool {
    |e: PendingAgreement| forall|j: int| 0 <= j < events.len() ==> e.agreement_hash@ != #[trigger] events[j].agreement_hash@
}

proof fn lemma_filter_all<A>(s: Seq<A>, p: spec_fn(A) -> bool)
    requires
        forall|x: A| #[trigger] p(x),
    ensures
        s.filter(p) == s,
    decreases s.len(),
{
    reveal(Seq::filter);
    if s.len() > 0 {
        lemma_filter_all(s.drop_last(), p);
        assert(s.drop_last().push(s.last()) =~= s);
    }
}

proof fn lemma_filter_filter<A>(s: Seq<A>, p: spec_fn(A) -> bool, q: spec_fn(A) -> bool)
    ensures
        s.filter(p).filter(q) == s.filter(|x: A| p(x) && q(x)),
    decreases s.len(),
{
    let pq = |x: A| p(x) && q(x);
    if s.len() == 0 {
        reveal(Seq::filter);
        assert(s.filter(p) =~= s);
        assert(s.filter(pq) =~= s);
        assert(s.filter(p).filter(q) =~= s);
    } else {
        let rest = s.drop_last();
        let last = s.last();
        assert(rest.push(last) =~= s);
        lemma_filter_filter(rest, p, q);
        rest.lemma_filter_push(last, p);
        rest.lemma_filter_push(last, pq);
        if p(last) {
            rest.filter(p).lemma_filter_push(last, q);
        }
    }
}

/// The mints of a poll remove exactly the agreements that one of them pays:
/// what stays pending is every entry whose hash is the agreement hash of none
/// of the polled mints, in the order it was received.
pub proof fn lemma_mints_keep_the_unpaid(entries: Seq<PendingAgreement>, events: Seq<MintEvent>)
    ensures
        pending_after_mints(entries, events) == entries.filter(paid_by_none(events)),
    decreases events.len(),
{
    if events.len() == 0 {
        lemma_filter_all(entries, paid_by_none(events));
    } else {
        let prefix = events.drop_last();
        let h = events.last().agreement_hash@;
        lemma_mints_keep_the_unpaid(entries, prefix);
        lemma_filter_filter(entries, paid_by_none(prefix), unconfirmed_by(h));
        let both = |x: PendingAgreement| paid_by_none(prefix)(x) && unconfirmed_by(h)(x);
        assert forall|x: PendingAgreement| #[trigger] both(x) == paid_by_none(events)(x) by {
            if both(x) {
                assert forall|j: int| 0 <= j < events.len() implies x.agreement_hash@ != #[trigger] events[j].agreement_hash@ by {
                    if j < events.len() - 1 {
                        assert(events[j] == prefix[j]);
                    }
                }
            }
            if paid_by_none(events)(x) {
                assert forall|j: int| 0 <= j < prefix.len() implies x.agreement_hash@ != #[trigger] prefix[j].agreement_hash@ by {
                    assert(events[j] == prefix[j]);
                }
                assert(x.agreement_hash@ != events[events.len() - 1].agreement_hash@);
            }
        }
        assert(both =~= paid_by_none(events));
    }
}

/// Applies the `MintEvent` logs that one poll of the chain found, in order:
/// each is confirmed as `on_mint_confirmed` confirms one.
pub fn on_mints_confirmed(pending: &mut PendingAgreements, status: &mut ModuleStatus, events: &Vec<MintEvent>)
    requires
        old(status).total_mints_observed + events@.len() <= u64::MAX,
    ensures
        final(pending)@ == pending_after_mints(old(pending)@, events@),
        final(pending)@ == old(pending)@.filter(paid_by_none(events@)),
        *final(status) == status_after_mints(*old(status), events@),
{
    let ghost pending0 = pending@;
    let ghost status0 = *status;
    let mut i: usize = 0;
    assert(events@.take(0) =~= Seq::<MintEvent>::empty());
    while i < events.len()
        invariant
            i <= events@.len(),
            status0.total_mints_observed + events@.len() <= u64::MAX,
            status.total_mints_observed == status0.total_mints_observed + i,
            pending@ == pending_after_mints(pending0, events@.take(i as int)),
            *status == status_after_mints(status0, events@.take(i as int)),
        decreases events@.len() - i,
    {
        assert(events@.take(i + 1).drop_last() =~= events@.take(i as int));
        assert(events@.take(i + 1).last() == events@[i as int]);
        on_mint_confirmed(pending, status, &events[i]);
        i = i + 1;
    }
    assert(events@.take(i as int) =~= events@);
    proof {
        lemma_mints_keep_the_unpaid(pending0, events@);
    }
}

/// After a poll's mints are applied, no pending agreement carries the hash of
/// any of them, and the queue holds nothing that was not pending before.
pub proof fn lemma_mints_clear_their_agreements(entries: Seq<PendingAgreement>, events: Seq<MintEvent>)
    ensures
        forall|i: int, j: int| 0 <= i < pending_after_mints(entries, events).len() && 0 <= j < events.len()
            ==> #[trigger] pending_after_mints(entries, events)[i].agreement_hash@ != #[trigger] events[j].agreement_hash@,
        forall|e: PendingAgreement| #[trigger] pending_after_mints(entries, events).contains(e) ==> entries.contains(e),
    decreases events.len(),
{
    if events.len() > 0 {
        let prev = pending_after_mints(entries, events.drop_last());
        let h = events.last().agreement_hash@;
        lemma_mints_clear_their_agreements(entries, events.drop_last());
        lemma_confirm_removes_exactly(prev, h);
        let cur = pending_after_mints(entries, events);
        assert(cur == still_pending(prev, h));
        assert forall|i: int, j: int| 0 <= i < cur.len() && 0 <= j < events.len()
            implies #[trigger] cur[i].agreement_hash@ != #[trigger] events[j].agreement_hash@ by {
            if j < events.len() - 1 {
                assert(still_pending(prev, h).contains(cur[i]));
                let k = choose|k: int| 0 <= k < prev.len() && prev[k] == cur[i];
                assert(events.drop_last()[j] == events[j]);
                assert(prev[k].agreement_hash@ != events.drop_last()[j].agreement_hash@);
            } else {
                assert(cur[i].agreement_hash@ != h);
            }
        }
        assert forall|e: PendingAgreement| #[trigger] cur.contains(e) implies entries.contains(e) by {
            assert(prev.contains(e));
        }
    }
}

/// The name of the Work NFT that a mint created: "Work Record #" and the NFT id
/// in decimal.
pub open spec fn work_nft_name(event: MintEvent) -> Seq<char> {
    "Work Record #"@ + decimal(be_value(event.work_nft_id@))
}

/// The content URI under which a Work NFT's metadata waits for upload:
/// "logos://pending/" and the NFT id in decimal.
pub open spec fn pending_metadata_uri_of(event: MintEvent) -> Seq<char> {
    "logos://pending/"@ + decimal(be_value(event.work_nft_id@))
}

/// The metadata of the Work NFT minted by `event`, with the given
/// human-readable description of the work.
pub fn work_nft_metadata(event: &MintEvent, description: String) -> (metadata: WorkNftMetadata)
    ensures
        metadata.name@ == work_nft_name(*event),
        metadata.description == description,
        metadata.mint_event == *event,
        metadata.tags@.len() == 3,
        metadata.tags@[0]@ == "time-protocol"@,
        metadata.tags@[1]@ == "work"@,
        metadata.tags@[2]@ == "parallel-society"@,
        metadata.schema_version@ == "1.0.0"@,
{
    let mut name = String::from_str("Work Record #");
    let id = u256_decimal(&event.work_nft_id);
    name.append(id.as_str());
    let mut tags: Vec<String> = Vec::new();
    tags.push(String::from_str("time-protocol"));
    tags.push(String::from_str("work"));
    tags.push(String::from_str("parallel-society"));
    WorkNftMetadata {
        name,
        description,
        mint_event: *event,
        tags,
        schema_version: String::from_str("1.0.0"),
    }
}

/// The content-addressed URI to store in the WorkNFT while its metadata is
/// queued for Logos Storage upload.
pub fn pending_metadata_uri(event: &MintEvent) -> (uri: String)
    ensures
        uri@ == pending_metadata_uri_of(*event),
{
    let mut uri = String::from_str("logos://pending/");
    let id = u256_decimal(&event.work_nft_id);
    uri.append(id.as_str());
    uri
}

/// Confirming a mint with agreement hash `confirmed` removes exactly the
/// agreements that carry that hash: none that stays carries it, every one that
/// does not carry it stays, and nothing new appears.
pub proof fn lemma_confirm_removes_exactly(entries: Seq<PendingAgreement>, confirmed: Seq<u8>)
    ensures
        forall|i: int| 0 <= i < still_pending(entries, confirmed).len()
            ==> #[trigger] still_pending(entries, confirmed)[i].agreement_hash@ != confirmed,
        forall|i: int| 0 <= i < entries.len() && entries[i].agreement_hash@ != confirmed
            ==> still_pending(entries, confirmed).contains(#[trigger] entries[i]),
        forall|e: PendingAgreement| #[trigger] still_pending(entries, confirmed).contains(e)
            ==> entries.contains(e),
        still_pending(entries, confirmed).len() <= entries.len(),
{
    let pred = unconfirmed_by(confirmed);
    assert forall|i: int| 0 <= i < still_pending(entries, confirmed).len()
        implies #[trigger] still_pending(entries, confirmed)[i].agreement_hash@ != confirmed by {
        entries.lemma_filter_pred(pred, i);
    }
    assert forall|i: int| 0 <= i < entries.len() && entries[i].agreement_hash@ != confirmed
        implies still_pending(entries, confirmed).contains(#[trigger] entries[i]) by {
        entries.lemma_filter_contains(pred, i);
    }
    assert forall|e: PendingAgreement| #[trigger] still_pending(entries, confirmed).contains(e)
        implies entries.contains(e) by {
        entries.lemma_filter_contains_rev(pred, e);
    }
    entries.lemma_filter_len(pred);
}

/// An agreement received and then paid for leaves the queue as it was before
/// it arrived; one whose hash differs from the paid one stays, at the end.
pub proof fn lemma_receive_then_confirm(entries: Seq<PendingAgreement>, received: PendingAgreement, confirmed: Seq<u8>)
    ensures
        received.agreement_hash@ == confirmed
            ==> still_pending(entries.push(received), confirmed) == still_pending(entries, confirmed),
        received.agreement_hash@ != confirmed
            ==> still_pending(entries.push(received), confirmed) == still_pending(entries, confirmed).push(received),
{
    entries.lemma_filter_push(received, unconfirmed_by(confirmed));
}

/// Seeing the same mint twice removes nothing more the second time.
pub proof fn lemma_confirm_idempotent(entries: Seq<PendingAgreement>, confirmed: Seq<u8>)
    ensures
        still_pending(still_pending(entries, confirmed), confirmed) == still_pending(entries, confirmed),
    decreases entries.len(),
{
    let pred = unconfirmed_by(confirmed);
    if entries.len() == 0 {
        reveal(Seq::filter);
        assert(entries.filter(pred) =~= entries);
    } else {
        let rest = entries.drop_last();
        let last = entries.last();
        assert(rest.push(last) =~= entries);
        lemma_confirm_idempotent(rest, confirmed);
        rest.lemma_filter_push(last, pred);
        if pred(last) {
            rest.filter(pred).lemma_filter_push(last, pred);
        }
    }
}

/// An agreement forwarded by the Waku listener and then paid for leaves the
/// pending count where it was, and counts one more mint.
pub proof fn lemma_forward_then_mint(status: ModuleStatus, event: MintEvent)
    requires
        status.agreements_pending < usize::MAX,
        status.total_mints_observed < u64::MAX,
    ensures
        after_mint(after_forward(status), event).agreements_pending == status.agreements_pending,
        after_mint(after_forward(status), event).total_mints_observed == status.total_mints_observed + 1,
        after_mint(after_forward(status), event).last_block_seen == event.block_number,
{
}

} // verus!
