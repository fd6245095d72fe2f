//! Recovery of quarantined epochs.

use super::quarantine::{position, QuarantinedEpoch, QuarantinedEpochView};
use super::{CoreManager, ManagerView};
use crate::error::{Error, ErrorView};
use crate::manager::quarantine;
use crate::state::{CoreState, CoreStateView};
use crate::text;
use vstd::prelude::*;
use vstd::string::*;

verus! {

/// What looking for the process of an epoch by its pid record gave.
#[derive(Debug, Clone, Copy, PartialEq, Eq, Structural)]
pub enum ReapOutcome {
    AlreadyExited,
    Killed,
    /// There is no authoritative record of the process.
    NotFound,
}

/// What a recovery asks for next.
#[derive(Debug, Clone, Copy, PartialEq, Eq, Structural)]
pub enum RecoveryWork {
    /// Find and end the process of `epoch` by its pid record.
    Reap { epoch: u64 },
    /// Remove the artifacts of `epoch`.
    Cleanup { epoch: u64 },
    /// Every epoch has had its turn.
    Finish,
}

/// A recovery under way: the epochs that were quarantined when it began, the
/// one that has its turn, whether that one is known to be dead, and the
/// failures so far.
#[derive(Debug)]
pub struct Recovery {
    pub entries: Vec<QuarantinedEpoch>,
    pub turn: usize,
    pub dead: bool,
    pub failures: Vec<String>,
}

/// The content of a [`Recovery`].
#[verifier::ext_equal]
pub struct RecoveryView {
    pub entries: Seq<QuarantinedEpochView>,
    pub turn: int,
    pub dead: bool,
    pub failures: Seq<Seq<char>>,
}

impl View for Recovery {
    type V = RecoveryView;

    open spec fn view(&self) -> RecoveryView {
        RecoveryView {
            entries: quarantine::entries(self.entries@),
            turn: self.turn as int,
            dead: self.dead,
            failures: text::texts(self.failures@),
        }
    }
}

impl RecoveryView {
    /// The recovery with the turn passed on.
    pub open spec fn next_turn(self) -> RecoveryView {
        RecoveryView {
            turn: self.turn + 1,
            dead: self.turn + 1 < self.entries.len() && self.entries[self.turn + 1].death_proven,
            ..self
        }
    }

    /// The recovery with a failure of the epoch that has its turn.
    pub open spec fn failed(self, detail: Seq<char>) -> RecoveryView {
        let entry = self.entries[self.turn];
        (RecoveryView {
            failures: self.failures.push(
                "epoch "@ + text::decimal(entry.epoch as nat) + ": "@ + entry.reason + detail,
            ),
            ..self
        }).next_turn()
    }

    /// What the recovery asks for next.
    pub open spec fn awaited(self) -> RecoveryWork {
        if self.turn >= self.entries.len() {
            RecoveryWork::Finish
        } else if self.dead {
            RecoveryWork::Cleanup { epoch: self.entries[self.turn].epoch }
        } else {
            RecoveryWork::Reap { epoch: self.entries[self.turn].epoch }
        }
    }

    /// Whether `epoch` has its turn or is still to get it.
    pub open spec fn gets_turn(self, epoch: u64) -> bool {
        exists|j: int|
            self.turn <= j < self.entries.len() && (#[trigger] self.entries[j]).epoch == epoch
    }

    /// Whether every quarantined epoch of `m` still gets its turn or has failed.
    pub open spec fn covers(self, m: ManagerView) -> bool {
        0 <= self.turn <= self.entries.len() && (self.failures.len() > 0 || forall|i: int|
            0 <= i < m.quarantine.len() ==> self.gets_turn((#[trigger] m.quarantine[i]).epoch))
    }
}

/// The list without the entries of `epoch`.
pub open spec fn released(list: Seq<QuarantinedEpochView>, epoch: u64) -> Seq<
    QuarantinedEpochView,
>
    decreases list.len(),
{
    if list.len() == 0 {
        list
    } else if list.last().epoch == epoch {
        released(list.drop_last(), epoch)
    } else {
        released(list.drop_last(), epoch).push(list.last())
    }
}

/// The list with the death of `epoch` proven.
pub open spec fn proven(list: Seq<QuarantinedEpochView>, epoch: u64) -> Seq<QuarantinedEpochView> {
    let at = quarantine::slot(list, epoch, 0);
    if at < list.len() {
        list.update(at, QuarantinedEpochView { death_proven: true, ..list[at] })
    } else {
        list
    }
}

pub proof fn lemma_released(list: Seq<QuarantinedEpochView>, epoch: u64)
    ensures
        forall|i: int|
            0 <= i < released(list, epoch).len() ==> (#[trigger] released(list, epoch)[i]).epoch
                != epoch && list.contains(released(list, epoch)[i]),
        forall|i: int|
            0 <= i < list.len() && (#[trigger] list[i]).epoch != epoch ==> released(
                list,
                epoch,
            ).contains(list[i]),
    decreases list.len(),
{
    if list.len() > 0 {
        let head = list.drop_last();
        lemma_released(head, epoch);
        let res = released(list, epoch);
        assert forall|i: int| 0 <= i < res.len() implies (#[trigger] res[i]).epoch != epoch
            && list.contains(res[i]) by {
            if i < released(head, epoch).len() {
                assert(res[i] == released(head, epoch)[i]);
                let j = choose|j: int| 0 <= j < head.len() && head[j] == res[i];
                assert(list[j] == res[i]);
            } else {
                assert(list[list.len() - 1] == res[i]);
            }
        }
        assert forall|i: int|
            0 <= i < list.len() && (#[trigger] list[i]).epoch != epoch implies res.contains(
            list[i],
        ) by {
            if i < head.len() {
                assert(head[i] == list[i]);
                let j = choose|j: int|
                    0 <= j < released(head, epoch).len() && released(head, epoch)[j] == list[i];
                assert(res[j] == list[i]);
            } else {
                assert(res[res.len() - 1] == list[i]);
            }
        }
    }
}

/// Releasing an epoch takes it out of quarantine and no other.
pub proof fn releasing_only_removes_its_epoch(list: Seq<QuarantinedEpochView>, epoch: u64)
    ensures
        forall|e: u64| #[trigger]
            quarantine::holds(released(list, epoch), e) <==> (e != epoch && quarantine::holds(
                list,
                e,
            )),
{
    lemma_released(list, epoch);
    let res = released(list, epoch);
    assert forall|e: u64| #[trigger] quarantine::holds(res, e) <==> (e != epoch
        && quarantine::holds(list, e)) by {
        if quarantine::holds(res, e) {
            let i = choose|i: int| 0 <= i < res.len() && (#[trigger] res[i]).epoch == e;
            assert(list.contains(res[i]));
            let j = choose|j: int| 0 <= j < list.len() && list[j] == res[i];
            assert(list[j].epoch == e);
        }
        if e != epoch && quarantine::holds(list, e) {
            let i = choose|i: int| 0 <= i < list.len() && (#[trigger] list[i]).epoch == e;
            assert(res.contains(list[i]));
            let j = choose|j: int| 0 <= j < res.len() && res[j] == list[i];
            assert(res[j].epoch == e);
        }
    }
}

proof fn lemma_still_covers(
    before: RecoveryView,
    m: ManagerView,
    after: RecoveryView,
    n: ManagerView,
    passed: Option<u64>,
)
    requires
        before.covers(m),
        after.entries == before.entries,
        after.failures == before.failures,
        match passed {
            None => after.turn == before.turn,
            Some(epoch) => before.turn < before.entries.len() && after.turn == before.turn + 1
                && epoch == before.entries[before.turn].epoch,
        },
        forall|i: int|
            0 <= i < n.quarantine.len() ==> quarantine::holds(
                m.quarantine,
                (#[trigger] n.quarantine[i]).epoch,
            ) && passed != Some(n.quarantine[i].epoch),
    ensures
        after.covers(n),
{
    if before.failures.len() == 0 {
        assert forall|i: int| 0 <= i < n.quarantine.len() implies after.gets_turn(
            (#[trigger] n.quarantine[i]).epoch,
        ) by {
            let epoch = n.quarantine[i].epoch;
            let k = choose|k: int|
                0 <= k < m.quarantine.len() && (#[trigger] m.quarantine[k]).epoch == epoch;
            let j = choose|j: int|
                before.turn <= j < before.entries.len() && (#[trigger] before.entries[j]).epoch
                    == m.quarantine[k].epoch;
            assert(after.entries[j].epoch == epoch);
        }
    }
}

impl ManagerView {
    /// What a reap of the epoch that has its turn leads to.
    pub open spec fn reaped(self, recovery: RecoveryView, result: Result<ReapOutcome, Error>) -> (
        ManagerView,
        RecoveryView,
    ) {
        match result {
            Ok(ReapOutcome::NotFound) => (
                self,
                recovery.failed("; authoritative epoch pid record is unavailable"@),
            ),
            Ok(_) => (
                ManagerView {
                    quarantine: proven(self.quarantine, recovery.entries[recovery.turn].epoch),
                    ..self
                },
                RecoveryView { dead: true, ..recovery },
            ),
            Err(error) => (self, recovery.failed("; recovery failed: "@ + error@.text())),
        }
    }

    /// What the cleanup of the epoch that has its turn leads to.
    pub open spec fn cleaned(self, recovery: RecoveryView, result: Result<(), Error>) -> (
        ManagerView,
        RecoveryView,
    ) {
        match result {
            Ok(_) => (
                ManagerView {
                    quarantine: released(self.quarantine, recovery.entries[recovery.turn].epoch),
                    ..self
                },
                recovery.next_turn(),
            ),
            Err(error) => (self, recovery.failed("; artifact cleanup failed: "@ + error@.text())),
        }
    }

    /// How a recovery ends.
    pub open spec fn recovered(self, recovery: RecoveryView, now: i64) -> (
        ManagerView,
        Result<(), ErrorView>,
    ) {
        if recovery.failures.len() > 0 {
            (
                self,
                Err(
                    ErrorView::ManagerQuarantined {
                        epoch: if self.quarantine.len() > 0 {
                            self.quarantine[0].epoch
                        } else {
                            0
                        },
                        reason: text::joined(recovery.failures, " | "@),
                    },
                ),
            )
        } else {
            (self.published(CoreStateView::Stopped { reason: None }, None, None, None, now), Ok(()))
        }
    }
}

impl Recovery {
    /// What the recovery asks for next.
    pub fn work(&self) -> (res: RecoveryWork)
        ensures
            res == self@.awaited(),
    {
        if self.turn >= self.entries.len() {
            return RecoveryWork::Finish;
        }
        assert(self@.entries[self.turn as int] == self.entries@[self.turn as int]@);
        let epoch: u64 = self.entries[self.turn].epoch;
        if self.dead {
            RecoveryWork::Cleanup { epoch }
        } else {
            RecoveryWork::Reap { epoch }
        }
    }

    fn pass_turn(&mut self)
        requires
            old(self).turn < old(self).entries.len(),
        ensures
            final(self)@ == old(self)@.next_turn(),
    {
        self.turn = self.turn + 1;
        if self.turn < self.entries.len() {
            assert(self@.entries[self.turn as int] == self.entries@[self.turn as int]@);
            self.dead = self.entries[self.turn].death_proven;
        } else {
            self.dead = false;
        }
    }

    fn fail(&mut self, detail: &str)
        requires
            old(self).turn < old(self).entries.len(),
        ensures
            final(self)@ == old(self)@.failed(detail@),
    {
        assert(self@.entries[self.turn as int] == self.entries@[self.turn as int]@);
        let epoch: String = text::decimal_text(self.entries[self.turn].epoch);
        let mut failure: String = text::concat4(
            "epoch ",
            epoch.as_str(),
            ": ",
            self.entries[self.turn].reason.as_str(),
        );
        failure.append(detail);
        let ghost before = self@;
        self.failures.push(failure);
        assert(self@.failures =~= before.failures.push(failure@));
        self.pass_turn();
    }
}

fn copy_entries(list: &Vec<QuarantinedEpoch>) -> (res: Vec<QuarantinedEpoch>)
    ensures
        quarantine::entries(res@) == quarantine::entries(list@),
{
    let mut res: Vec<QuarantinedEpoch> = Vec::new();
    let mut i: usize = 0;
    while i < list.len()
        invariant
            i <= list.len(),
            res.len() == i,
            forall|j: int| 0 <= j < i ==> (#[trigger] res@[j])@ == list@[j]@,
        decreases list.len() - i,
    {
        let entry: &QuarantinedEpoch = &list[i];
        res.push(
            QuarantinedEpoch {
                epoch: entry.epoch,
                reason: entry.reason.clone(),
                death_proven: entry.death_proven,
            },
        );
        i = i + 1;
    }
    assert(quarantine::entries(res@) =~= quarantine::entries(list@));
    res
}

fn without_epoch(list: &Vec<QuarantinedEpoch>, epoch: u64) -> (res: Vec<QuarantinedEpoch>)
    ensures
        quarantine::entries(res@) == released(quarantine::entries(list@), epoch),
{
    let mut res: Vec<QuarantinedEpoch> = Vec::new();
    let mut i: usize = 0;
    let ghost all = quarantine::entries(list@);
    assert(quarantine::entries(res@) =~= released(all.take(0), epoch));
    while i < list.len()
        invariant
            i <= list.len(),
            all == quarantine::entries(list@),
            quarantine::entries(res@) == released(all.take(i as int), epoch),
        decreases list.len() - i,
    {
        let entry: &QuarantinedEpoch = &list[i];
        let ghost before = quarantine::entries(res@);
        assert(all.take(i + 1).drop_last() =~= all.take(i as int));
        assert(all.take(i + 1).last() == list@[i as int]@);
        if entry.epoch != epoch {
            res.push(
                QuarantinedEpoch {
                    epoch: entry.epoch,
                    reason: entry.reason.clone(),
                    death_proven: entry.death_proven,
                },
            );
            assert(quarantine::entries(res@) =~= before.push(list@[i as int]@));
        }
        i = i + 1;
    }
    assert(all.take(all.len() as int) =~= all);
    res
}

impl CoreManager {
    /// Begins to recover every quarantined epoch: each process is to be proven
    /// dead and its artifacts removed. Nothing is to be done, and the recovery
    /// has succeeded, where nothing is quarantined.
    pub fn recover_quarantine(&self) -> (res: Option<Recovery>)
        ensures
            match res {
                None => self@.quarantine.len() == 0,
                Some(recovery) => self@.quarantine.len() > 0 && recovery@ == begun(self@)
                    && recovery@.covers(self@),
            },
    {
        if self.quarantine.len() == 0 {
            return None;
        }
        let entries: Vec<QuarantinedEpoch> = copy_entries(&self.quarantine);
        assert(self@.quarantine[0] == self.quarantine@[0]@);
        let dead: bool = self.quarantine[0].death_proven;
        let recovery: Recovery = Recovery { entries, turn: 0, dead, failures: Vec::new() };
        assert(recovery@.failures =~= Seq::<Seq<char>>::empty());
        assert forall|i: int| 0 <= i < self@.quarantine.len() implies recovery@.gets_turn(
            (#[trigger] self@.quarantine[i]).epoch,
        ) by {
            assert(recovery@.entries[i].epoch == self@.quarantine[i].epoch);
        }
        Some(recovery)
    }

    /// Takes the result of reaping the epoch that has its turn.
    pub fn recover_reaped(&mut self, recovery: &mut Recovery, result: Result<ReapOutcome, Error>)
        requires
            old(recovery)@.awaited() is Reap,
            old(recovery)@.covers(old(self)@),
        ensures
            final(self).options == old(self).options,
            (final(self)@, final(recovery)@) == old(self)@.reaped(old(recovery)@, result),
            final(recovery)@.covers(final(self)@),
    {
        assert(recovery@.entries[recovery.turn as int] == recovery.entries@[recovery.turn as int]@);
        match result {
            Ok(ReapOutcome::NotFound) => {
                recovery.fail("; authoritative epoch pid record is unavailable");
            },
            Ok(_) => {
                let epoch: u64 = recovery.entries[recovery.turn].epoch;
                let ghost before = self@.quarantine;
                proof {
                    quarantine::lemma_slot(before, epoch, 0);
                }
                let at: usize = position(&self.quarantine, epoch);
                if at < self.quarantine.len() {
                    let known: u64 = self.quarantine[at].epoch;
                    let reason: String = self.quarantine[at].reason.clone();
                    self.quarantine.set(
                        at,
                        QuarantinedEpoch { epoch: known, reason, death_proven: true },
                    );
                }
                assert(self@.quarantine =~= proven(before, epoch));
                recovery.dead = true;
                proof {
                    assert forall|i: int| 0 <= i < self@.quarantine.len() implies quarantine::holds(
                        before,
                        (#[trigger] self@.quarantine[i]).epoch,
                    ) by {
                        assert(before[i].epoch == self@.quarantine[i].epoch);
                    }
                    lemma_still_covers(old(recovery)@, old(self)@, recovery@, self@, None);
                }
            },
            Err(error) => {
                let detail: String = error.message();
                let text: String = text::concat("; recovery failed: ", detail.as_str());
                recovery.fail(text.as_str());
            },
        }
    }

    /// Takes the result of cleaning up the epoch that has its turn.
    pub fn recover_cleaned(&mut self, recovery: &mut Recovery, result: Result<(), Error>)
        requires
            old(recovery)@.awaited() is Cleanup,
            old(recovery)@.covers(old(self)@),
        ensures
            final(self).options == old(self).options,
            (final(self)@, final(recovery)@) == old(self)@.cleaned(old(recovery)@, result),
            final(recovery)@.covers(final(self)@),
    {
        assert(recovery@.entries[recovery.turn as int] == recovery.entries@[recovery.turn as int]@);
        match result {
            Ok(_) => {
                let epoch: u64 = recovery.entries[recovery.turn].epoch;
                let ghost before = self@.quarantine;
                let kept: Vec<QuarantinedEpoch> = without_epoch(&self.quarantine, epoch);
                self.quarantine = kept;
                recovery.pass_turn();
                proof {
                    releasing_only_removes_its_epoch(before, epoch);
                    assert forall|i: int| 0 <= i < self@.quarantine.len() implies quarantine::holds(
                        before,
                        (#[trigger] self@.quarantine[i]).epoch,
                    ) && self@.quarantine[i].epoch != epoch by {
                        assert(quarantine::holds(self@.quarantine, self@.quarantine[i].epoch));
                    }
                    lemma_still_covers(old(recovery)@, old(self)@, recovery@, self@, Some(epoch));
                }
            },
            Err(error) => {
                let detail: String = error.message();
                let text: String = text::concat("; artifact cleanup failed: ", detail.as_str());
                recovery.fail(text.as_str());
            },
        }
    }

    /// Ends a recovery: it succeeds, with nothing left in quarantine, if no
    /// epoch failed.
    pub fn recover_finish(&mut self, recovery: Recovery, now: i64) -> (res: Result<(), Error>)
        requires
            recovery@.awaited() is Finish,
            recovery@.covers(old(self)@),
        ensures
            final(self).options == old(self).options,
            final(self)@ == old(self)@.recovered(recovery@, now).0,
            match (res, old(self)@.recovered(recovery@, now).1) {
                (Ok(_), Ok(_)) => final(self)@.quarantine.len() == 0,
                (Err(error), Err(expected)) => error@ == expected,
                _ => false,
            },
    {
        assert(recovery@.failures.len() == recovery.failures.len());
        if recovery.failures.len() > 0 {
            let epoch: u64 = if self.quarantine.len() > 0 {
                assert(self@.quarantine[0] == self.quarantine@[0]@);
                self.quarantine[0].epoch
            } else {
                0
            };
            let reason: String = text::join(&recovery.failures, " | ");
            return Err(Error::ManagerQuarantined { epoch, reason });
        }
        assert(self@.quarantine.len() == 0) by {
            if self@.quarantine.len() > 0 {
                assert(self@.quarantine[0] == self@.quarantine[0]);
            }
        }
        self.publish(CoreState::Stopped { reason: None }, None, None, None, now);
        Ok(())
    }
}

/// An epoch leaves the quarantine only in its turn of a recovery, after it was
/// proven dead and its artifacts were removed.
pub proof fn only_a_clean_death_releases(
    m: ManagerView,
    recovery: RecoveryView,
    reaped: Result<ReapOutcome, Error>,
    cleaned: Result<(), Error>,
    epoch: u64,
)
    requires
        quarantine::holds(m.quarantine, epoch),
        0 <= recovery.turn < recovery.entries.len(),
    ensures
        quarantine::holds(m.reaped(recovery, reaped).0.quarantine, epoch),
        !quarantine::holds(m.cleaned(recovery, cleaned).0.quarantine, epoch) ==> cleaned is Ok
            && epoch == recovery.entries[recovery.turn].epoch,
        m.reaped(recovery, reaped).1.awaited() is Cleanup && m.reaped(recovery, reaped).1.turn
            == recovery.turn ==> reaped is Ok && reaped->Ok_0 != ReapOutcome::NotFound,
{
    releasing_only_removes_its_epoch(m.quarantine, recovery.entries[recovery.turn].epoch);
    let target = recovery.entries[recovery.turn].epoch;
    quarantine::lemma_slot(m.quarantine, target, 0);
    let i = choose|i: int| 0 <= i < m.quarantine.len() && (#[trigger] m.quarantine[i]).epoch == epoch;
    let after = m.reaped(recovery, reaped).0.quarantine;
    assert(after[i].epoch == epoch);
}

proof fn lemma_released_once(list: Seq<QuarantinedEpochView>, epoch: u64)
    requires
        quarantine::one_per_epoch(list),
    ensures
        quarantine::one_per_epoch(released(list, epoch)),
    decreases list.len(),
{
    if list.len() > 0 {
        let head = list.drop_last();
        lemma_released_once(head, epoch);
        lemma_released(head, epoch);
        let res = released(head, epoch);
        assert forall|i: int| 0 <= i < res.len() implies (#[trigger] res[i]).epoch
            != list.last().epoch by {
            assert(head.contains(res[i]));
            let j = choose|j: int| 0 <= j < head.len() && head[j] == res[i];
            assert(list[j].epoch != list[list.len() - 1].epoch);
        }
    }
}

/// No step of a recovery quarantines an epoch twice.
pub proof fn a_recovery_keeps_one_per_epoch(
    m: ManagerView,
    recovery: RecoveryView,
    reaped: Result<ReapOutcome, Error>,
    cleaned: Result<(), Error>,
    now: i64,
)
    requires
        quarantine::one_per_epoch(m.quarantine),
    ensures
        quarantine::one_per_epoch(m.reaped(recovery, reaped).0.quarantine),
        quarantine::one_per_epoch(m.cleaned(recovery, cleaned).0.quarantine),
        quarantine::one_per_epoch(m.recovered(recovery, now).0.quarantine),
{
    let epoch = recovery.entries[recovery.turn].epoch;
    quarantine::lemma_slot(m.quarantine, epoch, 0);
    lemma_released_once(m.quarantine, epoch);
}

/// What came of the work of a recovery, on the epoch that had its turn.
pub enum RecoveryEvent {
    Reaped { epoch: u64, reap: Result<ReapOutcome, Error> },
    Cleaned { epoch: u64, result: Result<(), Error> },
}

impl RecoveryEvent {
    /// Whether this is the proof that the process of `epoch` is dead.
    pub open spec fn proves_death(self, epoch: u64) -> bool {
        match self {
            RecoveryEvent::Reaped { epoch: of, reap: Ok(outcome) } => of == epoch && outcome
                != ReapOutcome::NotFound,
            _ => false,
        }
    }

    /// Whether the artifacts of `epoch` were removed.
    pub open spec fn cleans(self, epoch: u64) -> bool {
        match self {
            RecoveryEvent::Cleaned { epoch: of, result: Ok(_) } => of == epoch,
            _ => false,
        }
    }
}

impl ManagerView {
    /// Whether a recovery that stands at `recovery` has given every epoch its
    /// turn after `events`, and leaves the manager as `end`, at `finish`.
    pub open spec fn recovers(
        self,
        recovery: RecoveryView,
        events: Seq<RecoveryEvent>,
        end: ManagerView,
        finish: RecoveryView,
    ) -> bool
        decreases events.len(),
    {
        if events.len() == 0 {
            recovery.awaited() is Finish && end == self && finish == recovery
        } else {
            match (recovery.awaited(), events[0]) {
                (
                    RecoveryWork::Reap { epoch },
                    RecoveryEvent::Reaped { epoch: of, reap },
                ) => of == epoch && self.reaped(recovery, reap).0.recovers(
                    self.reaped(recovery, reap).1,
                    events.skip(1),
                    end,
                    finish,
                ),
                (
                    RecoveryWork::Cleanup { epoch },
                    RecoveryEvent::Cleaned { epoch: of, result },
                ) => of == epoch && self.cleaned(recovery, result).0.recovers(
                    self.cleaned(recovery, result).1,
                    events.skip(1),
                    end,
                    finish,
                ),
                _ => false,
            }
        }
    }
}

impl RecoveryView {
    /// Whether the epochs that had their turn are still quarantined exactly if
    /// one of them failed, and all others are.
    pub open spec fn accounts(self, m: ManagerView) -> bool {
        &&& 0 <= self.turn <= self.entries.len()
        &&& quarantine::one_per_epoch(self.entries)
        &&& forall|j: int|
            self.turn <= j < self.entries.len() ==> quarantine::holds(
                m.quarantine,
                (#[trigger] self.entries[j]).epoch,
            )
        &&& self.failures.len() > 0 <==> exists|j: int|
            0 <= j < self.turn && quarantine::holds(
                m.quarantine,
                (#[trigger] self.entries[j]).epoch,
            )
        &&& forall|e: u64| #[trigger]
            quarantine::holds(m.quarantine, e) ==> quarantine::holds(self.entries, e)
    }
}

proof fn lemma_proven_holds(list: Seq<QuarantinedEpochView>, epoch: u64)
    ensures
        forall|e: u64| #[trigger]
            quarantine::holds(proven(list, epoch), e) <==> quarantine::holds(list, e),
{
    quarantine::lemma_slot(list, epoch, 0);
    let after = proven(list, epoch);
    assert forall|e: u64| #[trigger] quarantine::holds(after, e) <==> quarantine::holds(list, e) by {
        if quarantine::holds(after, e) {
            let i = choose|i: int| 0 <= i < after.len() && (#[trigger] after[i]).epoch == e;
            assert(list[i].epoch == e);
        }
        if quarantine::holds(list, e) {
            let i = choose|i: int| 0 <= i < list.len() && (#[trigger] list[i]).epoch == e;
            assert(after[i].epoch == e);
        }
    }
}

/// A turn that failed leaves the account right: its epoch stays.
proof fn lemma_failed_accounts(m: ManagerView, recovery: RecoveryView, detail: Seq<char>)
    requires
        recovery.accounts(m),
        recovery.turn < recovery.entries.len(),
    ensures
        recovery.failed(detail).accounts(m),
{
    let after = recovery.failed(detail);
    assert(quarantine::holds(m.quarantine, after.entries[recovery.turn].epoch));
}

proof fn lemma_proven_accounts(m: ManagerView, recovery: RecoveryView)
    requires
        recovery.accounts(m),
        recovery.turn < recovery.entries.len(),
    ensures
        (RecoveryView { dead: true, ..recovery }).accounts(
            ManagerView {
                quarantine: proven(m.quarantine, recovery.entries[recovery.turn].epoch),
                ..m
            },
        ),
{
    lemma_proven_holds(m.quarantine, recovery.entries[recovery.turn].epoch);
    let after = RecoveryView { dead: true, ..recovery };
    let n = ManagerView {
        quarantine: proven(m.quarantine, recovery.entries[recovery.turn].epoch),
        ..m
    };
    if recovery.failures.len() > 0 {
        let j = choose|j: int|
            0 <= j < recovery.turn && quarantine::holds(
                m.quarantine,
                (#[trigger] recovery.entries[j]).epoch,
            );
        assert(quarantine::holds(n.quarantine, after.entries[j].epoch));
    }
}

proof fn lemma_released_accounts(m: ManagerView, recovery: RecoveryView)
    requires
        recovery.accounts(m),
        recovery.turn < recovery.entries.len(),
    ensures
        recovery.next_turn().accounts(
            ManagerView {
                quarantine: released(m.quarantine, recovery.entries[recovery.turn].epoch),
                ..m
            },
        ),
{
    let epoch = recovery.entries[recovery.turn].epoch;
    releasing_only_removes_its_epoch(m.quarantine, epoch);
    let after = recovery.next_turn();
    let n = ManagerView { quarantine: released(m.quarantine, epoch), ..m };
    if recovery.failures.len() > 0 {
        let j = choose|j: int|
            0 <= j < recovery.turn && quarantine::holds(
                m.quarantine,
                (#[trigger] recovery.entries[j]).epoch,
            );
        assert(recovery.entries[j].epoch != epoch);
        assert(quarantine::holds(n.quarantine, after.entries[j].epoch));
    }
    if exists|j: int|
        0 <= j < after.turn && quarantine::holds(n.quarantine, (#[trigger] after.entries[j]).epoch) {
        let j = choose|j: int|
            0 <= j < after.turn && quarantine::holds(
                n.quarantine,
                (#[trigger] after.entries[j]).epoch,
            );
        assert(j < recovery.turn);
        assert(quarantine::holds(m.quarantine, recovery.entries[j].epoch));
    }
}

proof fn lemma_recovery_run(
    m: ManagerView,
    recovery: RecoveryView,
    events: Seq<RecoveryEvent>,
    end: ManagerView,
    finish: RecoveryView,
)
    requires
        recovery.accounts(m),
        m.recovers(recovery, events, end, finish),
    ensures
        finish.failures.len() == 0 <==> end.quarantine.len() == 0,
        forall|e: u64| #[trigger]
            quarantine::holds(end.quarantine, e) ==> quarantine::holds(m.quarantine, e),
        end == (ManagerView { quarantine: end.quarantine, ..m }),
    decreases events.len(),
{
    if events.len() == 0 {
        if end.quarantine.len() > 0 {
            assert(quarantine::holds(m.quarantine, m.quarantine[0].epoch));
            let j = choose|j: int|
                0 <= j < recovery.entries.len() && (#[trigger] recovery.entries[j]).epoch
                    == m.quarantine[0].epoch;
            assert(quarantine::holds(m.quarantine, recovery.entries[j].epoch));
        }
    } else {
        let epoch = recovery.entries[recovery.turn].epoch;
        let rest = events.skip(1);
        match events[0] {
            RecoveryEvent::Reaped { reap, .. } => {
                lemma_proven_holds(m.quarantine, epoch);
                match reap {
                    Ok(ReapOutcome::NotFound) => {
                        lemma_failed_accounts(
                            m,
                            recovery,
                            "; authoritative epoch pid record is unavailable"@,
                        );
                    },
                    Ok(_) => {
                        lemma_proven_accounts(m, recovery);
                    },
                    Err(error) => {
                        lemma_failed_accounts(
                            m,
                            recovery,
                            "; recovery failed: "@ + error@.text(),
                        );
                    },
                }
                let next = m.reaped(recovery, reap);
                lemma_recovery_run(next.0, next.1, rest, end, finish);
            },
            RecoveryEvent::Cleaned { result, .. } => {
                releasing_only_removes_its_epoch(m.quarantine, epoch);
                match result {
                    Ok(_) => {
                        lemma_released_accounts(m, recovery);
                    },
                    Err(error) => {
                        lemma_failed_accounts(
                            m,
                            recovery,
                            "; artifact cleanup failed: "@ + error@.text(),
                        );
                    },
                }
                let next = m.cleaned(recovery, result);
                lemma_recovery_run(next.0, next.1, rest, end, finish);
            },
        }
    }
}

/// The recovery that begins with the quarantine of a manager.
pub open spec fn begun(m: ManagerView) -> RecoveryView {
    RecoveryView {
        entries: m.quarantine,
        turn: 0,
        dead: m.quarantine.len() > 0 && m.quarantine[0].death_proven,
        failures: Seq::empty(),
    }
}

/// A recovery succeeds exactly if it leaves nothing in quarantine, so that no
/// later request is refused; else it is answered with the quarantine that is
/// left. It quarantines no epoch, and changes nothing else before its end.
pub proof fn a_recovery_succeeds_if_nothing_is_left(
    m: ManagerView,
    events: Seq<RecoveryEvent>,
    end: ManagerView,
    finish: RecoveryView,
    now: i64,
)
    requires
        quarantine::one_per_epoch(m.quarantine),
        m.recovers(begun(m), events, end, finish),
    ensures
        end.recovered(finish, now).1 is Ok <==> end.recovered(finish, now).0.quarantine.len() == 0,
        end.recovered(finish, now).1 is Ok <==> end.recovered(finish, now).0.refusal() is None,
        end.recovered(finish, now).0.quarantine == end.quarantine,
        end.recovered(finish, now).1 matches Err(error) ==> error matches
            ErrorView::ManagerQuarantined { epoch, .. } && epoch == end.quarantine[0].epoch,
        forall|e: u64| #[trigger]
            quarantine::holds(end.quarantine, e) ==> quarantine::holds(m.quarantine, e),
        end == (ManagerView { quarantine: end.quarantine, ..m }),
{
    let recovery = begun(m);
    assert forall|j: int| 0 <= j < recovery.entries.len() implies quarantine::holds(
        m.quarantine,
        (#[trigger] recovery.entries[j]).epoch,
    ) by {
        assert(m.quarantine[j].epoch == recovery.entries[j].epoch);
    }
    lemma_recovery_run(m, recovery, events, end, finish);
}

/// Whether, at some point of `events`, the artifacts of `epoch` were removed
/// after its process was proven dead; `known` tells that it was before.
pub open spec fn released_cleanly(events: Seq<RecoveryEvent>, epoch: u64, known: bool) -> bool {
    exists|i: int|
        0 <= i < events.len() && #[trigger] events[i].cleans(epoch) && (known || exists|k: int|
            0 <= k < i && #[trigger] events[k].proves_death(epoch))
}

proof fn lemma_released_later(
    first: RecoveryEvent,
    rest: Seq<RecoveryEvent>,
    events: Seq<RecoveryEvent>,
    epoch: u64,
    known: bool,
)
    requires
        events.len() > 0,
        first == events[0],
        rest == events.skip(1),
        released_cleanly(rest, epoch, known || first.proves_death(epoch)),
    ensures
        released_cleanly(events, epoch, known),
{
    let proof_first = first.proves_death(epoch);
    let i = choose|i: int|
        0 <= i < rest.len() && #[trigger] rest[i].cleans(epoch) && ((known || proof_first) || exists|
            k: int,
        |
            0 <= k < i && #[trigger] rest[k].proves_death(epoch));
    assert(events[i + 1].cleans(epoch));
    if !known && !proof_first {
        let k = choose|k: int| 0 <= k < i && #[trigger] rest[k].proves_death(epoch);
        assert(events[k + 1].proves_death(epoch));
    } else if !known {
        assert(events[0].proves_death(epoch));
    }
}

proof fn lemma_clean_death(
    m: ManagerView,
    recovery: RecoveryView,
    events: Seq<RecoveryEvent>,
    end: ManagerView,
    finish: RecoveryView,
    j: int,
)
    requires
        0 <= recovery.turn <= recovery.entries.len(),
        quarantine::one_per_epoch(recovery.entries),
        0 <= j < recovery.entries.len(),
        quarantine::holds(m.quarantine, recovery.entries[j].epoch),
        m.recovers(recovery, events, end, finish),
        !quarantine::holds(end.quarantine, recovery.entries[j].epoch),
    ensures
        released_cleanly(
            events,
            recovery.entries[j].epoch,
            recovery.entries[j].death_proven || (j == recovery.turn && recovery.dead),
        ),
    decreases events.len(),
{
    let epoch = recovery.entries[j].epoch;
    let known = recovery.entries[j].death_proven || (j == recovery.turn && recovery.dead);
    if events.len() > 0 {
        let of = recovery.entries[recovery.turn].epoch;
        let rest = events.skip(1);
        match events[0] {
            RecoveryEvent::Reaped { reap, .. } => {
                lemma_proven_holds(m.quarantine, of);
                let next = m.reaped(recovery, reap);
                lemma_clean_death(next.0, next.1, rest, end, finish, j);
                lemma_released_later(events[0], rest, events, epoch, known);
            },
            RecoveryEvent::Cleaned { result, .. } => {
                releasing_only_removes_its_epoch(m.quarantine, of);
                if result is Ok && j == recovery.turn {
                    assert(events[0].cleans(epoch));
                } else {
                    let next = m.cleaned(recovery, result);
                    lemma_clean_death(next.0, next.1, rest, end, finish, j);
                    lemma_released_later(events[0], rest, events, epoch, known);
                }
            },
        }
    }
}

/// An epoch leaves the quarantine over a recovery only if its process was proven
/// dead, then or before, and its artifacts were removed after that. That there
/// is no record of a process is no proof.
pub proof fn an_epoch_leaves_by_a_proven_death(
    m: ManagerView,
    events: Seq<RecoveryEvent>,
    end: ManagerView,
    finish: RecoveryView,
    at: int,
)
    requires
        quarantine::one_per_epoch(m.quarantine),
        0 <= at < m.quarantine.len(),
        m.recovers(begun(m), events, end, finish),
        !quarantine::holds(end.quarantine, m.quarantine[at].epoch),
    ensures
        released_cleanly(events, m.quarantine[at].epoch, m.quarantine[at].death_proven),
{
    assert(quarantine::holds(m.quarantine, m.quarantine[at].epoch));
    lemma_clean_death(m, begun(m), events, end, finish, at);
}

} // verus!
