//! Epochs whose process may still be alive.

use super::{CoreManager, ManagerView};
use crate::error::{Error, ErrorView};
use crate::text;
use vstd::prelude::*;
use vstd::string::*;

verus! {

/// An epoch whose process could not be proven dead, and why.
#[derive(Debug, PartialEq, Eq)]
pub struct QuarantinedEpoch {
    pub epoch: u64,
    pub reason: String,
    pub death_proven: bool,
}

/// The content of a [`QuarantinedEpoch`].
pub struct QuarantinedEpochView {
    pub epoch: u64,
    pub reason: Seq<char>,
    pub death_proven: bool,
}

impl View for QuarantinedEpoch {
    type V = QuarantinedEpochView;

    open spec fn view(&self) -> QuarantinedEpochView {
        QuarantinedEpochView {
            epoch: self.epoch,
            reason: self.reason@,
            death_proven: self.death_proven,
        }
    }
}

/// The content of a list of quarantined epochs.
pub open spec fn entries(list: Seq<QuarantinedEpoch>) -> Seq<QuarantinedEpochView> {
    Seq::new(list.len(), |i: int| list[i]@)
}

/// The first position at or after `from` that holds `epoch`; the length of the
/// list where none does.
pub open spec fn slot(list: Seq<QuarantinedEpochView>, epoch: u64, from: int) -> int
    decreases list.len() - from,
{
    if from < 0 || from >= list.len() {
        list.len() as int
    } else if list[from].epoch == epoch {
        from
    } else {
        slot(list, epoch, from + 1)
    }
}

/// Whether `epoch` is quarantined.
pub open spec fn holds(list: Seq<QuarantinedEpochView>, epoch: u64) -> bool {
    exists|i: int| 0 <= i < list.len() && (#[trigger] list[i]).epoch == epoch
}

/// Whether no epoch is quarantined twice.
pub open spec fn one_per_epoch(list: Seq<QuarantinedEpochView>) -> bool {
    forall|i: int, j: int| 0 <= i < j < list.len() ==> list[i].epoch != list[j].epoch
}

/// The list with `epoch` in it: a known epoch keeps its place and gets the new
/// reason, a new one is added at the end.
pub open spec fn recorded(
    list: Seq<QuarantinedEpochView>,
    epoch: u64,
    reason: Seq<char>,
) -> Seq<QuarantinedEpochView> {
    let at = slot(list, epoch, 0);
    if at < list.len() {
        list.update(at, QuarantinedEpochView { reason, ..list[at] })
    } else {
        list.push(QuarantinedEpochView { epoch, reason, death_proven: false })
    }
}

/// The epoch numbers of a list, in decimal.
pub open spec fn epoch_texts(list: Seq<QuarantinedEpochView>) -> Seq<Seq<char>> {
    Seq::new(list.len(), |i: int| text::decimal(list[i].epoch as nat))
}

/// The error that a quarantine answers requests with.
pub open spec fn refusal(list: Seq<QuarantinedEpochView>) -> Option<ErrorView> {
    if list.len() == 0 {
        None
    } else {
        Some(
            ErrorView::ManagerQuarantined {
                epoch: list[0].epoch,
                reason: if list.len() == 1 {
                    list[0].reason
                } else {
                    list[0].reason + "; additional uncertain epochs: "@ + text::joined(
                        epoch_texts(list),
                        ", "@,
                    )
                },
            },
        )
    }
}

pub proof fn lemma_slot(list: Seq<QuarantinedEpochView>, epoch: u64, from: int)
    requires
        0 <= from <= list.len(),
    ensures
        from <= slot(list, epoch, from) <= list.len(),
        slot(list, epoch, from) < list.len() ==> list[slot(list, epoch, from)].epoch == epoch,
        forall|i: int| from <= i < slot(list, epoch, from) ==> (#[trigger] list[i]).epoch != epoch,
    decreases list.len() - from,
{
    if from < list.len() && list[from].epoch != epoch {
        lemma_slot(list, epoch, from + 1);
    }
}

/// Recording an epoch quarantines it, keeps every other epoch quarantined and
/// quarantines no other.
pub proof fn recording_only_adds_its_epoch(
    list: Seq<QuarantinedEpochView>,
    epoch: u64,
    reason: Seq<char>,
)
    ensures
        recorded(list, epoch, reason).len() > 0,
        forall|e: u64| #[trigger]
            holds(recorded(list, epoch, reason), e) <==> (e == epoch || holds(list, e)),
{
    lemma_slot(list, epoch, 0);
    let at = slot(list, epoch, 0);
    let after = recorded(list, epoch, reason);
    assert forall|e: u64| #[trigger] holds(after, e) <==> (e == epoch || holds(list, e)) by {
        if holds(list, e) {
            let i = choose|i: int| 0 <= i < list.len() && (#[trigger] list[i]).epoch == e;
            assert(after[i].epoch == e);
        }
        if e == epoch {
            assert(after[at].epoch == epoch);
        }
        if holds(after, e) {
            let i = choose|i: int| 0 <= i < after.len() && (#[trigger] after[i]).epoch == e;
            if i < list.len() {
                assert(list[i].epoch == e);
            }
        }
    }
}

fn epoch_list(list: &Vec<QuarantinedEpoch>) -> (res: Vec<String>)
    ensures
        text::texts(res@) == epoch_texts(entries(list@)),
{
    let mut res: Vec<String> = Vec::new();
    let mut i: usize = 0;
    while i < list.len()
        invariant
            i <= list.len(),
            res.len() == i,
            forall|j: int| 0 <= j < i ==> (#[trigger] res@[j])@ == text::decimal(
                list@[j].epoch as nat,
            ),
        decreases list.len() - i,
    {
        res.push(text::decimal_text(list[i].epoch));
        i = i + 1;
    }
    assert(text::texts(res@) =~= epoch_texts(entries(list@)));
    res
}

/// The position of `epoch` in the list; its length where it is not there.
pub(crate) fn position(list: &Vec<QuarantinedEpoch>, epoch: u64) -> (res: usize)
    ensures
        res == slot(entries(list@), epoch, 0),
{
    let mut i: usize = 0;
    while i < list.len()
        invariant
            i <= list.len(),
            slot(entries(list@), epoch, 0) == slot(entries(list@), epoch, i as int),
        decreases list.len() - i,
    {
        assert(entries(list@)[i as int] == list@[i as int]@);
        if list[i].epoch == epoch {
            return i;
        }
        i = i + 1;
    }
    i
}

/// Recording an epoch quarantines none twice.
pub proof fn recording_keeps_one_per_epoch(
    list: Seq<QuarantinedEpochView>,
    epoch: u64,
    reason: Seq<char>,
)
    requires
        one_per_epoch(list),
    ensures
        one_per_epoch(recorded(list, epoch, reason)),
{
    lemma_slot(list, epoch, 0);
}

impl CoreManager {
    /// The error that the quarantine answers requests with, if there is one.
    pub fn quarantine_error(&self) -> (res: Option<Error>)
        ensures
            match res {
                Some(error) => refusal(self@.quarantine) == Some(error@),
                None => self@.quarantine.len() == 0,
            },
    {
        if self.quarantine.len() == 0 {
            return None;
        }
        assert(self@.quarantine[0] == self.quarantine@[0]@);
        let first: &QuarantinedEpoch = &self.quarantine[0];
        let reason: String = if self.quarantine.len() == 1 {
            first.reason.clone()
        } else {
            let list: Vec<String> = epoch_list(&self.quarantine);
            let epochs: String = text::join(&list, ", ");
            text::concat3(
                first.reason.as_str(),
                "; additional uncertain epochs: ",
                epochs.as_str(),
            )
        };
        Some(Error::ManagerQuarantined { epoch: first.epoch, reason })
    }

    /// Puts `epoch` into quarantine.
    pub(crate) fn record_quarantine(&mut self, epoch: u64, reason: String)
        ensures
            final(self).options == old(self).options,
            final(self)@ == (ManagerView {
                quarantine: recorded(old(self)@.quarantine, epoch, reason@),
                ..old(self)@
            }),
    {
        let ghost before = self@.quarantine;
        let at: usize = position(&self.quarantine, epoch);
        proof {
            lemma_slot(before, epoch, 0);
        }
        if at < self.quarantine.len() {
            let death_proven: bool = self.quarantine[at].death_proven;
            let known: u64 = self.quarantine[at].epoch;
            self.quarantine.set(at, QuarantinedEpoch { epoch: known, reason, death_proven });
        } else {
            self.quarantine.push(QuarantinedEpoch { epoch, reason, death_proven: false });
        }
        assert(self@.quarantine =~= recorded(before, epoch, reason@));
    }
}

/// Recording an epoch leaves its latest reason, and proves no death: what was
/// known of it, and of every other epoch, stays.
pub proof fn a_record_holds_the_latest_reason(
    list: Seq<QuarantinedEpochView>,
    epoch: u64,
    reason: Seq<char>,
)
    requires
        one_per_epoch(list),
    ensures
        ({
            let after = recorded(list, epoch, reason);
            &&& forall|i: int|
                0 <= i < after.len() && (#[trigger] after[i]).epoch == epoch ==> after[i].reason
                    == reason
            &&& !holds(list, epoch) ==> forall|i: int|
                0 <= i < after.len() && (#[trigger] after[i]).epoch == epoch
                    ==> !after[i].death_proven
            &&& forall|i: int|
                0 <= i < list.len() ==> after[i].epoch == (#[trigger] list[i]).epoch
                    && after[i].death_proven == list[i].death_proven && (list[i].epoch != epoch
                    ==> after[i] == list[i])
            &&& holds(list, epoch) ==> after.len() == list.len()
            &&& !holds(list, epoch) ==> after.len() == list.len() + 1
        }),
{
    lemma_slot(list, epoch, 0);
    let at = slot(list, epoch, 0);
    if at < list.len() {
        assert(list[at].epoch == epoch);
    }
    let after = recorded(list, epoch, reason);
    assert forall|i: int| 0 <= i < after.len() && (#[trigger] after[i]).epoch
        == epoch implies after[i].reason == reason by {
        if i < list.len() {
            assert(list[i].epoch == epoch);
        }
    }
    assert forall|i: int| 0 <= i < list.len() implies after[i].epoch == (#[trigger] list[i]).epoch
        && after[i].death_proven == list[i].death_proven && (list[i].epoch != epoch ==> after[i]
        == list[i]) by {
    }
    if !holds(list, epoch) {
        assert forall|i: int| 0 <= i < after.len() && (#[trigger] after[i]).epoch
            == epoch implies !after[i].death_proven by {
            if i < list.len() {
                assert(list[i].epoch == epoch);
            }
        }
    }
}

/// Requests are refused exactly while an epoch is quarantined, and the refusal
/// names the first of them and its reason.
pub proof fn a_refusal_names_the_first_epoch(list: Seq<QuarantinedEpochView>)
    ensures
        refusal(list) is None <==> list.len() == 0,
        refusal(list) matches Some(error) ==> {
            &&& error is ManagerQuarantined
            &&& error->ManagerQuarantined_epoch == list[0].epoch
            &&& error->ManagerQuarantined_reason.take(list[0].reason.len() as int)
                == list[0].reason
            &&& list.len() == 1 ==> error->ManagerQuarantined_reason == list[0].reason
        },
{
    if list.len() > 0 {
        assert(refusal(list)->0->ManagerQuarantined_reason.take(list[0].reason.len() as int)
            =~= list[0].reason);
    }
}

} // verus!
