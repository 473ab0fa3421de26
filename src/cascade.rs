//! Deletion of a user or a tweet together with the media of its owner. The blob
//! store shares no transaction with the relational store, so the deletion is a
//! state machine: every blob is deleted first, one at a time; only when all of
//! them are gone are the media rows deleted, then the owning row. The first
//! failure stops the machine for good: no row is deleted after it, and blobs
//! already deleted stay deleted (their rows are then orphaned references, left
//! for manual follow-up; nothing is retried or compensated).
//!
//! The driver asks `step` what to do, does it, and reports the outcome with
//! `record`, until the step is `Finished` or `Failed`.
use crate::ids::Uuid;
use crate::models::media::Media;
use crate::models::tweets::Tweet;
use vstd::prelude::*;

verus! {

/// The row whose deletion the media deletion precedes.
#[derive(Clone, Copy, Debug, PartialEq, Eq, Structural)]
pub enum CascadeTarget {
    User(Uuid),
    Tweet(Uuid),
}

/// Where the machine stands.
#[derive(Clone, Copy, Debug, PartialEq, Eq, Structural)]
pub enum Stage {
    /// Deleting blobs; the next one to delete is at index `next`.
    Blobs,
    /// All blobs are gone; the media rows are next.
    MediaRows,
    /// The media rows are gone; the target row is next.
    Target,
    /// Everything was deleted.
    Finished,
    /// A step failed; nothing more will be done.
    Failed,
}

/// What the driver must do next.
#[derive(Debug)]
pub enum CascadeStep {
    /// Delete the blob stored under this key.
    DeleteBlob(String),
    /// Delete, in one operation, every media row owned by this user.
    DeleteMediaRows(Uuid),
    /// Delete the target row.
    DeleteTarget(CascadeTarget),
    /// Nothing is left to do: the deletion succeeded.
    Finished,
    /// Nothing will be done: the deletion failed.
    Failed,
}

/// A step, with its key as a sequence of characters.
pub enum StepModel {
    DeleteBlob(Seq<char>),
    DeleteMediaRows(Uuid),
    DeleteTarget(CascadeTarget),
    Finished,
    Failed,
}

/// The state of a deletion.
pub struct CascadeModel {
    pub target: CascadeTarget,
    pub owner: Uuid,
    pub keys: Seq<Seq<char>>,
    pub next: nat,
    pub stage: Stage,
}

impl CascadeModel {
    pub open spec fn wf(self) -> bool {
        &&& self.next <= self.keys.len()
        &&& self.stage is Blobs ==> self.next < self.keys.len()
    }

    /// The step this state asks for.
    pub open spec fn step(self) -> StepModel {
        match self.stage {
            Stage::Blobs => StepModel::DeleteBlob(self.keys[self.next as int]),
            Stage::MediaRows => StepModel::DeleteMediaRows(self.owner),
            Stage::Target => StepModel::DeleteTarget(self.target),
            Stage::Finished => StepModel::Finished,
            Stage::Failed => StepModel::Failed,
        }
    }

    pub open spec fn is_terminal(self) -> bool {
        self.stage is Finished || self.stage is Failed
    }

    /// The state once the step has been performed with outcome `succeeded`.
    pub open spec fn after(self, succeeded: bool) -> CascadeModel {
        if self.is_terminal() {
            self
        } else if !succeeded {
            CascadeModel { stage: Stage::Failed, ..self }
        } else {
            match self.stage {
                Stage::Blobs => if self.next + 1 < self.keys.len() {
                    CascadeModel { next: self.next + 1, ..self }
                } else {
                    CascadeModel { next: self.next + 1, stage: Stage::MediaRows, ..self }
                },
                Stage::MediaRows => CascadeModel { stage: Stage::Target, ..self },
                _ => CascadeModel { stage: Stage::Finished, ..self },
            }
        }
    }
}

/// The state in which the deletion of `target`, preceded by the blobs `keys` of `owner`, starts.
pub open spec fn start_model(target: CascadeTarget, owner: Uuid, keys: Seq<Seq<char>>) -> CascadeModel {
    CascadeModel {
        target,
        owner,
        keys,
        next: 0,
        stage: if keys.len() == 0 { Stage::MediaRows } else { Stage::Blobs },
    }
}

/// The steps a driver is asked to perform when it reports `outcomes` in order,
/// up to the end of the outcomes or a terminal state.
pub open spec fn trace(m: CascadeModel, outcomes: Seq<bool>) -> Seq<StepModel>
    decreases outcomes.len(),
{
    if outcomes.len() == 0 || m.is_terminal() {
        Seq::empty()
    } else {
        seq![m.step()] + trace(m.after(outcomes[0]), outcomes.drop_first())
    }
}

/// One blob deletion per key, in order.
pub open spec fn blob_steps(keys: Seq<Seq<char>>) -> Seq<StepModel> {
    Seq::new(keys.len(), |i: int| StepModel::DeleteBlob(keys[i]))
}

/// The blob keys of media rows, in order.
pub open spec fn keys_of(media: Seq<Media>) -> Seq<Seq<char>> {
    media.map_values(|m: Media| m.s3_key@)
}

/// The model of an executable step.
pub open spec fn step_model(s: CascadeStep) -> StepModel {
    match s {
        CascadeStep::DeleteBlob(k) => StepModel::DeleteBlob(k@),
        CascadeStep::DeleteMediaRows(o) => StepModel::DeleteMediaRows(o),
        CascadeStep::DeleteTarget(t) => StepModel::DeleteTarget(t),
        CascadeStep::Finished => StepModel::Finished,
        CascadeStep::Failed => StepModel::Failed,
    }
}

proof fn lemma_tail_completes(m: CascadeModel, outcomes: Seq<bool>)
    requires
        m.stage is MediaRows,
        outcomes.len() == 2,
        outcomes[0],
        outcomes[1],
    ensures
        trace(m, outcomes) == seq![StepModel::DeleteMediaRows(m.owner), StepModel::DeleteTarget(m.target)],
{
    let m1 = m.after(outcomes[0]);
    let m2 = m1.after(outcomes.drop_first()[0]);
    assert(outcomes.drop_first().drop_first().len() == 0);
    assert(trace(m2, outcomes.drop_first().drop_first()) == Seq::<StepModel>::empty());
    assert(trace(m1, outcomes.drop_first()) == seq![StepModel::DeleteTarget(m.target)]);
}

proof fn lemma_blobs_complete(m: CascadeModel, outcomes: Seq<bool>)
    requires
        m.wf(),
        m.stage is Blobs,
        outcomes.len() == m.keys.len() - m.next + 2,
        forall|i: int| 0 <= i < outcomes.len() ==> outcomes[i],
    ensures
        trace(m, outcomes) == blob_steps(m.keys).skip(m.next as int) + seq![
            StepModel::DeleteMediaRows(m.owner),
            StepModel::DeleteTarget(m.target),
        ],
    decreases outcomes.len(),
{
    let m1 = m.after(outcomes[0]);
    let rest = outcomes.drop_first();
    if m.next + 1 < m.keys.len() {
        lemma_blobs_complete(m1, rest);
    } else {
        lemma_tail_completes(m1, rest);
    }
    assert(trace(m, outcomes) =~= blob_steps(m.keys).skip(m.next as int) + seq![
        StepModel::DeleteMediaRows(m.owner),
        StepModel::DeleteTarget(m.target),
    ]);
}

proof fn lemma_blobs_fail(m: CascadeModel, outcomes: Seq<bool>, i: int)
    requires
        m.wf(),
        m.stage is Blobs,
        m.next <= i < m.keys.len(),
        i - m.next < outcomes.len(),
        !outcomes[i - m.next],
        forall|j: int| 0 <= j < i - m.next ==> outcomes[j],
    ensures
        trace(m, outcomes) == blob_steps(m.keys).subrange(m.next as int, i + 1),
    decreases outcomes.len(),
{
    let m1 = m.after(outcomes[0]);
    let rest = outcomes.drop_first();
    if i == m.next {
        assert(m1.is_terminal());
        assert(trace(m1, rest) == Seq::<StepModel>::empty());
    } else {
        lemma_blobs_fail(m1, rest, i);
    }
    assert(trace(m, outcomes) =~= blob_steps(m.keys).subrange(m.next as int, i + 1));
}

/// When every step succeeds, the driver deletes each blob once, in order, then the
/// media rows, then the target row, and nothing else.
pub proof fn lemma_cascade_completes(
    target: CascadeTarget,
    owner: Uuid,
    keys: Seq<Seq<char>>,
    outcomes: Seq<bool>,
)
    requires
        outcomes.len() == keys.len() + 2,
        forall|i: int| 0 <= i < outcomes.len() ==> outcomes[i],
    ensures
        trace(start_model(target, owner, keys), outcomes) == blob_steps(keys) + seq![
            StepModel::DeleteMediaRows(owner),
            StepModel::DeleteTarget(target),
        ],
{
    let m = start_model(target, owner, keys);
    if keys.len() == 0 {
        lemma_tail_completes(m, outcomes);
        assert(blob_steps(keys) =~= Seq::<StepModel>::empty());
        assert(blob_steps(keys) + seq![
            StepModel::DeleteMediaRows(owner),
            StepModel::DeleteTarget(target),
        ] =~= seq![StepModel::DeleteMediaRows(owner), StepModel::DeleteTarget(target)]);
    } else {
        lemma_blobs_complete(m, outcomes);
        assert(blob_steps(keys).skip(0) =~= blob_steps(keys));
    }
}

/// When the deletion of blob `i` fails after the earlier ones succeeded, the driver
/// has been asked for exactly the blob deletions `0..=i` and for no row deletion:
/// the target row and all the media rows remain.
pub proof fn lemma_failed_blob_keeps_rows(
    target: CascadeTarget,
    owner: Uuid,
    keys: Seq<Seq<char>>,
    outcomes: Seq<bool>,
    i: int,
)
    requires
        0 <= i < keys.len(),
        i < outcomes.len(),
        !outcomes[i],
        forall|j: int| 0 <= j < i ==> outcomes[j],
    ensures
        trace(start_model(target, owner, keys), outcomes) == blob_steps(keys.take(i + 1)),
        forall|k: int|
            0 <= k < trace(start_model(target, owner, keys), outcomes).len() ==> (#[trigger] trace(
                start_model(target, owner, keys),
                outcomes,
            )[k]) is DeleteBlob,
{
    let m = start_model(target, owner, keys);
    lemma_blobs_fail(m, outcomes, i);
    assert(blob_steps(keys).subrange(0, i + 1) =~= blob_steps(keys.take(i + 1)));
}

/// A deletion in progress.
pub struct CascadeDeletion {
    target: CascadeTarget,
    owner: Uuid,
    keys: Vec<String>,
    next: usize,
    stage: Stage,
}

impl View for CascadeDeletion {
    type V = CascadeModel;

    closed spec fn view(&self) -> CascadeModel {
        CascadeModel {
            target: self.target,
            owner: self.owner,
            keys: self.keys@.map_values(|k: String| k@),
            next: self.next as nat,
            stage: self.stage,
        }
    }
}

impl CascadeDeletion {
    /// Starts the deletion of `target`, preceded by the blobs of the media rows
    /// `media` owned by `owner`.
    pub fn start(target: CascadeTarget, owner: Uuid, media: &Vec<Media>) -> (r: CascadeDeletion)
        ensures
            r@ == start_model(target, owner, keys_of(media@)),
            r@.wf(),
    {
        let mut keys: Vec<String> = Vec::new();
        let mut i: usize = 0;
        while i < media.len()
            invariant
                i <= media.len(),
                keys@.map_values(|k: String| k@) =~= keys_of(media@.take(i as int)),
            decreases media.len() - i,
        {
            let key = media[i].s3_key.clone();
            let ghost before = keys@;
            keys.push(key);
            assert(keys@.map_values(|k: String| k@) =~= before.map_values(|k: String| k@).push(
                media@[i as int].s3_key@,
            ));
            assert(media@.take(i + 1) =~= media@.take(i as int).push(media@[i as int]));
            i = i + 1;
        }
        assert(media@.take(media.len() as int) =~= media@);
        let stage = if keys.len() == 0 { Stage::MediaRows } else { Stage::Blobs };
        CascadeDeletion { target, owner, keys, next: 0, stage }
    }

    /// Starts the deletion of user `user_id` and of all the media they own.
    pub fn for_user(user_id: Uuid, media: &Vec<Media>) -> (r: CascadeDeletion)
        ensures
            r@ == start_model(CascadeTarget::User(user_id), user_id, keys_of(media@)),
            r@.wf(),
    {
        CascadeDeletion::start(CascadeTarget::User(user_id), user_id, media)
    }

    /// Starts the deletion of `tweet`, preceded by that of the media of its author.
    pub fn for_tweet(tweet: &Tweet, media: &Vec<Media>) -> (r: CascadeDeletion)
        ensures
            r@ == start_model(CascadeTarget::Tweet(tweet.id), tweet.user_id, keys_of(media@)),
            r@.wf(),
    {
        CascadeDeletion::start(CascadeTarget::Tweet(tweet.id), tweet.user_id, media)
    }

    /// What the driver must do now.
    pub fn step(&self) -> (r: CascadeStep)
        requires
            self@.wf(),
        ensures
            step_model(r) == self@.step(),
    {
        match self.stage {
            Stage::Blobs => CascadeStep::DeleteBlob(self.keys[self.next].clone()),
            Stage::MediaRows => CascadeStep::DeleteMediaRows(self.owner),
            Stage::Target => CascadeStep::DeleteTarget(self.target),
            Stage::Finished => CascadeStep::Finished,
            Stage::Failed => CascadeStep::Failed,
        }
    }

    /// Records the outcome of the step just performed.
    pub fn record(&mut self, succeeded: bool)
        requires
            old(self)@.wf(),
        ensures
            final(self)@ == old(self)@.after(succeeded),
            final(self)@.wf(),
    {
        match self.stage {
            Stage::Finished | Stage::Failed => {},
            _ => {
                if !succeeded {
                    self.stage = Stage::Failed;
                } else {
                    match self.stage {
                        Stage::Blobs => {
                            assert(self.keys@.map_values(|k: String| k@).len() == self.keys@.len());
                            assert(self.next < self.keys.len());
                            self.next = self.next + 1;
                            if self.next >= self.keys.len() {
                                self.stage = Stage::MediaRows;
                            }
                        },
                        Stage::MediaRows => {
                            self.stage = Stage::Target;
                        },
                        _ => {
                            self.stage = Stage::Finished;
                        },
                    }
                }
            },
        }
    }

    /// Whether the deletion has ended, and how.
    pub fn outcome(&self) -> (r: Option<bool>)
        ensures
            r == (match self@.stage {
                Stage::Finished => Some(true),
                Stage::Failed => Some(false),
                _ => None::<bool>,
            }),
    {
        match self.stage {
            Stage::Finished => Some(true),
            Stage::Failed => Some(false),
            _ => None,
        }
    }
}

} // verus!
