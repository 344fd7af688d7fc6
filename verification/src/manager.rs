//! The chain-handler capability and the relay orchestrator.
//!
//! A `BottomUpHandler` is implemented once per chain runtime; its contracts
//! pin down what each construction primitive may do to the in-flight
//! template, and that a missing predecessor surfaces as the distinguished
//! not-found failure. The `BottomUpManager` drives one handler pair through
//! the four-step submission protocol, strictly sequentially, wrapping any
//! failure with the stage that produced it.

use vstd::prelude::*;
use crate::address::{addr_view, AddrV, NativeAddress};
use crate::checkpoint::{checkpoint_view, NativeBottomUpCheckpoint};
use crate::config::Subnet;
use crate::errors::{Error, Stage, SubmitError};
use crate::subnet::{subnet_view, SubnetID, SubnetIdV};
use crate::ChainEpoch;

verus! {

/// The fields of a template that proof population must leave untouched.
pub open spec fn template_core_unchanged(
    before: NativeBottomUpCheckpoint,
    after: NativeBottomUpCheckpoint,
) -> bool {
    &&& checkpoint_view(after).source == checkpoint_view(before).source
    &&& checkpoint_view(after).epoch == checkpoint_view(before).epoch
    &&& checkpoint_view(after).children == checkpoint_view(before).children
    &&& checkpoint_view(after).cross_msgs == checkpoint_view(before).cross_msgs
}

/// One side of the relay: the construction and query primitives a chain
/// runtime offers for bottom-up checkpointing.
///
/// The two ghost functions are the handler's model of the parent chain:
/// which checkpoint hash is committed for a subnet at an epoch, and which
/// validators have already voted at an epoch.
pub trait BottomUpHandler {
    /// The hash of the checkpoint committed for `subnet` at `epoch`, if
    /// any; a handler overrides this with its own chain model.
    open spec fn committed(&self, subnet: SubnetIdV, epoch: int) -> Option<Seq<u8>> {
        None
    }

    /// Whether `validator` has already voted for `subnet` at `epoch`; a
    /// handler overrides this with its own chain model.
    open spec fn voted(&self, subnet: SubnetIdV, epoch: int, validator: AddrV) -> bool {
        false
    }

    /// The checkpoint period configured for `subnet`; positive when known.
    fn checkpoint_period(&self, subnet: &SubnetID) -> (r: Result<ChainEpoch, Error>)
        ensures
            r matches Ok(p) ==> p > 0,
    ;

    /// The current validator set of `subnet`, as this chain tracks it.
    fn validators(&self, subnet: &SubnetID) -> (r: Result<Vec<NativeAddress>, Error>);

    /// The highest epoch already checkpointed for `subnet` on this chain.
    fn last_executed_epoch(&self, subnet: &SubnetID) -> (r: Result<ChainEpoch, Error>);

    /// The live epoch of this chain.
    fn current_epoch(&self) -> (r: Result<ChainEpoch, Error>);

    /// Whether `validator` has voted for `subnet` at `epoch`.
    fn has_voted(&self, subnet: &SubnetID, epoch: ChainEpoch, validator: &NativeAddress) -> (r:
        Result<bool, Error>)
        ensures
            r matches Ok(b) ==> b == self.voted(
                subnet_view(*subnet),
                epoch as int,
                addr_view(*validator),
            ),
    ;

    /// Builds the native template for `epoch` from chain-local state; the
    /// proof and the previous hash are left unset.
    fn checkpoint_template(&self, epoch: ChainEpoch) -> (r: Result<
        NativeBottomUpCheckpoint,
        Error,
    >)
        ensures
            r matches Ok(t) ==> t.epoch == epoch && t.proof_data is None && t.prev_check is None,
    ;

    /// Computes and attaches the proof over the template's cross-message
    /// batch and child-checks. Source, epoch, children and cross-messages
    /// stay untouched, so a second invocation cannot alter them either.
    fn populate_proof(&self, template: &mut NativeBottomUpCheckpoint) -> (r: Result<(), Error>)
        ensures
            r is Ok ==> template_core_unchanged(*old(template), *final(template)),
    ;

    /// Fills the previous-hash field with the hash of the checkpoint already
    /// committed for `subnet` at `previous_epoch`. When none is committed it
    /// fails with the distinguished not-found error and leaves the template
    /// as it stood: an absent predecessor never turns into a silent default.
    fn populate_prev_hash(
        &self,
        template: &mut NativeBottomUpCheckpoint,
        subnet: &SubnetID,
        previous_epoch: ChainEpoch,
    ) -> (r: Result<(), Error>)
        ensures
            r is Ok ==> (self.committed(subnet_view(*subnet), previous_epoch as int) matches Some(
                h,
            ) && checkpoint_view(*final(template)).prev_check == Some(h)),
            r is Ok ==> template_core_unchanged(*old(template), *final(template))
                && checkpoint_view(*final(template)).proof_data == checkpoint_view(
                *old(template),
            ).proof_data,
            self.committed(subnet_view(*subnet), previous_epoch as int) is None ==> (r matches Err(
                e,
            ) && e matches Error::NotFound { .. } && *final(template) == *old(template)),
    ;

    /// Encodes the completed checkpoint into this runtime's wire form and
    /// submits it as a signed transaction on behalf of `validator`,
    /// returning the epoch of inclusion.
    fn submit(&self, validator: &NativeAddress, checkpoint: NativeBottomUpCheckpoint) -> (r: Result<
        ChainEpoch,
        Error,
    >);
}

/// The orchestrator's frozen metadata: both subnet configurations and the
/// checkpoint period, resolved once at construction.
#[derive(Debug, Clone, PartialEq, Eq)]
pub struct CheckpointMetadata {
    pub parent: Subnet,
    pub child: Subnet,
    pub period: ChainEpoch,
}

/// The relay orchestrator for the bottom-up direction: one handler per
/// subnet side, driven through the four-step submission protocol.
pub struct BottomUpManager<P, C> {
    metadata: CheckpointMetadata,
    parent_handler: P,
    child_handler: C,
}

impl<P: BottomUpHandler, C: BottomUpHandler> BottomUpManager<P, C> {
    pub closed spec fn metadata_spec(&self) -> CheckpointMetadata {
        self.metadata
    }

    pub closed spec fn parent_handler_spec(&self) -> P {
        self.parent_handler
    }

    pub closed spec fn child_handler_spec(&self) -> C {
        self.child_handler
    }

    pub open spec fn period_spec(&self) -> ChainEpoch {
        self.metadata_spec().period
    }

    /// The frozen period is positive.
    pub open spec fn wf(&self) -> bool {
        self.period_spec() > 0
    }

    /// Builds an orchestrator over a handler pair, resolving the checkpoint
    /// period once from the parent side and freezing it.
    pub fn new(parent: Subnet, child: Subnet, parent_handler: P, child_handler: C) -> (r: Result<
        Self,
        Error,
    >)
        ensures
            r matches Ok(m) ==> m.wf() && m.metadata_spec().parent == parent
                && m.metadata_spec().child == child && m.parent_handler_spec() == parent_handler
                && m.child_handler_spec() == child_handler,
    {
        let period = parent_handler.checkpoint_period(&child.id)?;
        Ok(
            BottomUpManager {
                metadata: CheckpointMetadata { parent, child, period },
                parent_handler,
                child_handler,
            },
        )
    }

    /// The subnet this manager submits checkpoints to: the parent.
    pub fn target_subnet(&self) -> (r: &Subnet)
        ensures
            *r == self.metadata_spec().parent,
    {
        &self.metadata.parent
    }

    pub fn parent_subnet(&self) -> (r: &Subnet)
        ensures
            *r == self.metadata_spec().parent,
    {
        &self.metadata.parent
    }

    pub fn child_subnet(&self) -> (r: &Subnet)
        ensures
            *r == self.metadata_spec().child,
    {
        &self.metadata.child
    }

    /// The frozen checkpoint period.
    pub fn checkpoint_period(&self) -> (r: ChainEpoch)
        ensures
            r == self.period_spec(),
    {
        self.metadata.period
    }

    /// The validator set of the child subnet, as the parent tracks it.
    pub fn validators(&self) -> (r: Result<Vec<NativeAddress>, Error>) {
        self.parent_handler.validators(&self.metadata.child.id)
    }

    /// The highest epoch already checkpointed on the parent.
    pub fn last_executed_epoch(&self) -> (r: Result<ChainEpoch, Error>) {
        self.parent_handler.last_executed_epoch(&self.metadata.child.id)
    }

    /// The live epoch of the child chain, this flow's source of truth.
    pub fn current_epoch(&self) -> (r: Result<ChainEpoch, Error>) {
        self.child_handler.current_epoch()
    }

    /// Builds, completes and submits one checkpoint for `epoch` on behalf of
    /// `validator`: template, proof, previous hash, submission, strictly in
    /// that order, with no partial commit and no retry. A failing step
    /// aborts the whole submission with its stage attached; in particular,
    /// when the parent has no committed checkpoint at `epoch - period`, the
    /// submission fails rather than defaulting the hash chain.
    pub fn submit_checkpoint(&self, epoch: ChainEpoch, validator: &NativeAddress) -> (r: Result<
        ChainEpoch,
        SubmitError,
    >)
        requires
            self.wf(),
            epoch - self.period_spec() >= i64::MIN,
        ensures
            r is Ok ==> self.parent_handler_spec().committed(
                subnet_view(self.metadata_spec().child.id),
                epoch - self.period_spec(),
            ) is Some,
            self.parent_handler_spec().committed(
                subnet_view(self.metadata_spec().child.id),
                epoch - self.period_spec(),
            ) is None ==> r is Err,
            self.parent_handler_spec().committed(
                subnet_view(self.metadata_spec().child.id),
                epoch - self.period_spec(),
            ) is None ==> (r matches Err(se) ==> (se.stage == Stage::PrevHash ==> (
            se.cause matches Error::NotFound { .. }))),
    {
        let mut template = match self.child_handler.checkpoint_template(epoch) {
            Ok(t) => t,
            Err(e) => {
                return Err(SubmitError { stage: Stage::Template, cause: e });
            },
        };
        match self.child_handler.populate_proof(&mut template) {
            Ok(u) => u,
            Err(e) => {
                return Err(SubmitError { stage: Stage::Proof, cause: e });
            },
        };
        let prev_epoch = epoch - self.metadata.period;
        match self.parent_handler.populate_prev_hash(&mut template, &self.metadata.child.id, prev_epoch) {
            Ok(u) => u,
            Err(e) => {
                return Err(SubmitError { stage: Stage::PrevHash, cause: e });
            },
        };
        match self.parent_handler.submit(validator, template) {
            Ok(inclusion_epoch) => Ok(inclusion_epoch),
            Err(e) => Err(SubmitError { stage: Stage::Submit, cause: e }),
        }
    }

    /// The duplicate-submission guard: true unless `validator` has already
    /// voted at `epoch` on the parent.
    pub fn should_submit_in_epoch(&self, validator: &NativeAddress, epoch: ChainEpoch) -> (r:
        Result<bool, Error>)
        ensures
            r matches Ok(b) ==> b == !self.parent_handler_spec().voted(
                subnet_view(self.metadata_spec().child.id),
                epoch as int,
                addr_view(*validator),
            ),
            r is Err ==> (r matches Err(Error::VoteCheck { epoch: e, .. }) && e == epoch),
    {
        match self.parent_handler.has_voted(&self.metadata.child.id, epoch, validator) {
            Ok(has_voted) => Ok(!has_voted),
            Err(e) => Err(Error::VoteCheck { epoch, cause: Box::new(e) }),
        }
    }

    /// The flow-specific readiness gate; the bottom-up flow has no extra
    /// precondition, so it always reports ready.
    pub fn presubmission_check(&self) -> (r: Result<bool, Error>)
        ensures
            r matches Ok(b) && b,
    {
        Ok(true)
    }
}

} // verus!
