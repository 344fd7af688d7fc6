//! Orchestrator tests against fake chain handlers: the submission protocol,
//! the duplicate-submission guard, and the missing-predecessor failure.

use std::cell::RefCell;
use std::collections::HashMap;
use std::collections::HashSet;

use ipc_agent::address::NativeAddress;
use ipc_agent::amount::TokenAmount;
use ipc_agent::checkpoint::{BatchCrossMsgs, NativeBottomUpCheckpoint};
use ipc_agent::config::Subnet;
use ipc_agent::errors::{Error, Stage};
use ipc_agent::manager::{BottomUpHandler, BottomUpManager};
use ipc_agent::subnet::SubnetID;

fn test_subnet_id(root: u64) -> SubnetID {
    SubnetID { root, children: Vec::new() }
}

fn subnet_cfg(root: u64, name: &str) -> Subnet {
    Subnet { id: test_subnet_id(root), network_name: name.to_string(), evm: true }
}

fn validator() -> NativeAddress {
    NativeAddress::Secp256k1 { payload: (0u8..20).collect() }
}

fn validator_key(v: &NativeAddress) -> Vec<u8> {
    match v {
        NativeAddress::Secp256k1 { payload } => payload.clone(),
        NativeAddress::Delegated { subaddress, .. } => subaddress.clone(),
        NativeAddress::Id { id } => id.to_be_bytes().to_vec(),
        NativeAddress::Bls { payload } => payload.clone(),
    }
}

/// A fake chain handler: committed checkpoints and votes held in memory,
/// with switches that make single primitives fail.
struct FakeHandler {
    period: i64,
    current_epoch: i64,
    last_executed: i64,
    committed: RefCell<HashMap<i64, Vec<u8>>>,
    votes: RefCell<HashSet<(i64, Vec<u8>)>>,
    fail_has_voted: bool,
    fail_template: bool,
    reject_submit: bool,
}

impl FakeHandler {
    fn new(period: i64, current_epoch: i64, last_executed: i64) -> FakeHandler {
        FakeHandler {
            period,
            current_epoch,
            last_executed,
            committed: RefCell::new(HashMap::new()),
            votes: RefCell::new(HashSet::new()),
            fail_has_voted: false,
            fail_template: false,
            reject_submit: false,
        }
    }
}

impl BottomUpHandler for FakeHandler {
    fn checkpoint_period(&self, _subnet: &SubnetID) -> Result<i64, Error> {
        Ok(self.period)
    }

    fn validators(&self, _subnet: &SubnetID) -> Result<Vec<NativeAddress>, Error> {
        Ok(vec![validator()])
    }

    fn last_executed_epoch(&self, _subnet: &SubnetID) -> Result<i64, Error> {
        Ok(self.last_executed)
    }

    fn current_epoch(&self) -> Result<i64, Error> {
        Ok(self.current_epoch)
    }

    fn has_voted(
        &self,
        _subnet: &SubnetID,
        epoch: i64,
        validator: &NativeAddress,
    ) -> Result<bool, Error> {
        if self.fail_has_voted {
            return Err(Error::ChainQuery);
        }
        Ok(self.votes.borrow().contains(&(epoch, validator_key(validator))))
    }

    fn checkpoint_template(&self, epoch: i64) -> Result<NativeBottomUpCheckpoint, Error> {
        if self.fail_template {
            return Err(Error::ChainQuery);
        }
        Ok(NativeBottomUpCheckpoint {
            source: test_subnet_id(2),
            proof_data: None,
            epoch,
            prev_check: None,
            children: Vec::new(),
            cross_msgs: BatchCrossMsgs { cross_msgs: None, fee: TokenAmount::zero() },
            sig: Vec::new(),
        })
    }

    fn populate_proof(&self, template: &mut NativeBottomUpCheckpoint) -> Result<(), Error> {
        template.proof_data = Some(vec![7, 7, 7]);
        Ok(())
    }

    fn populate_prev_hash(
        &self,
        template: &mut NativeBottomUpCheckpoint,
        _subnet: &SubnetID,
        previous_epoch: i64,
    ) -> Result<(), Error> {
        match self.committed.borrow().get(&previous_epoch) {
            Some(h) => {
                template.prev_check = Some(h.clone());
                Ok(())
            },
            None => Err(Error::NotFound { epoch: previous_epoch }),
        }
    }

    fn submit(
        &self,
        validator: &NativeAddress,
        checkpoint: NativeBottomUpCheckpoint,
    ) -> Result<i64, Error> {
        if self.reject_submit {
            return Err(Error::SubmissionRejected);
        }
        self.votes.borrow_mut().insert((checkpoint.epoch, validator_key(validator)));
        self.committed.borrow_mut().insert(checkpoint.epoch, vec![9u8; 32]);
        Ok(checkpoint.epoch + 1)
    }
}

fn manager_with_committed_at(
    epoch: Option<i64>,
) -> BottomUpManager<FakeHandler, FakeHandler> {
    let parent = FakeHandler::new(100, 1200, 1000);
    if let Some(e) = epoch {
        parent.committed.borrow_mut().insert(e, vec![1u8; 32]);
    }
    let child = FakeHandler::new(100, 1100, 1000);
    BottomUpManager::new(subnet_cfg(1, "parent"), subnet_cfg(2, "child"), parent, child).unwrap()
}

#[test]
fn end_to_end_submission_then_guard() {
    let mgr = manager_with_committed_at(Some(1000));
    assert_eq!(mgr.checkpoint_period(), 100);
    assert_eq!(mgr.presubmission_check(), Ok(true));
    assert_eq!(mgr.should_submit_in_epoch(&validator(), 1100), Ok(true));

    let inclusion = mgr.submit_checkpoint(1100, &validator()).unwrap();
    assert_eq!(inclusion, 1101);

    // The recorded vote now pre-empts a second submission at the same epoch.
    assert_eq!(mgr.should_submit_in_epoch(&validator(), 1100), Ok(false));
}

#[test]
fn duplicate_submission_guard_reflects_votes() {
    let mgr = manager_with_committed_at(Some(1000));
    let v = validator();
    assert_eq!(mgr.should_submit_in_epoch(&v, 1100), Ok(true));
    mgr.submit_checkpoint(1100, &v).unwrap();
    assert_eq!(mgr.should_submit_in_epoch(&v, 1100), Ok(false));
    // Another epoch and another validator stay unaffected.
    assert_eq!(mgr.should_submit_in_epoch(&v, 1200), Ok(true));
    let other = NativeAddress::Secp256k1 { payload: (100u8..120).collect() };
    assert_eq!(mgr.should_submit_in_epoch(&other, 1100), Ok(true));
}

#[test]
fn missing_predecessor_fails_with_not_found() {
    let mgr = manager_with_committed_at(None);
    let err = mgr.submit_checkpoint(1100, &validator()).unwrap_err();
    assert_eq!(err.stage, Stage::PrevHash);
    assert!(matches!(err.cause, Error::NotFound { epoch: 1000 }));
    // Nothing was submitted, so no vote was recorded.
    assert_eq!(mgr.should_submit_in_epoch(&validator(), 1100), Ok(true));
}

#[test]
fn proof_population_is_idempotent_on_core_fields() {
    let handler = FakeHandler::new(100, 1100, 1000);
    let mut template = handler.checkpoint_template(1100).unwrap();
    handler.populate_proof(&mut template).unwrap();
    let source = template.source.clone();
    let epoch = template.epoch;
    let children = template.children.clone();
    let cross_msgs = template.cross_msgs.clone();
    handler.populate_proof(&mut template).unwrap();
    assert_eq!(template.source, source);
    assert_eq!(template.epoch, epoch);
    assert_eq!(template.children, children);
    assert_eq!(template.cross_msgs, cross_msgs);
}

#[test]
fn manager_accessors_delegate() {
    let mgr = manager_with_committed_at(Some(1000));
    assert_eq!(mgr.target_subnet().id, test_subnet_id(1));
    assert_eq!(mgr.parent_subnet().network_name, "parent");
    assert_eq!(mgr.child_subnet().network_name, "child");
    assert_eq!(mgr.last_executed_epoch(), Ok(1000));
    assert_eq!(mgr.current_epoch(), Ok(1100));
    assert_eq!(mgr.validators(), Ok(vec![validator()]));
}

#[test]
fn vote_check_failure_is_tagged() {
    let mut parent = FakeHandler::new(100, 1200, 1000);
    parent.fail_has_voted = true;
    let child = FakeHandler::new(100, 1100, 1000);
    let mgr =
        BottomUpManager::new(subnet_cfg(1, "parent"), subnet_cfg(2, "child"), parent, child)
            .unwrap();
    assert_eq!(
        mgr.should_submit_in_epoch(&validator(), 1100),
        Err(Error::VoteCheck { epoch: 1100, cause: Box::new(Error::ChainQuery) })
    );
}

#[test]
fn rejected_submission_carries_its_stage() {
    let mut parent = FakeHandler::new(100, 1200, 1000);
    parent.committed.borrow_mut().insert(1000, vec![1u8; 32]);
    parent.reject_submit = true;
    let child = FakeHandler::new(100, 1100, 1000);
    let mgr =
        BottomUpManager::new(subnet_cfg(1, "parent"), subnet_cfg(2, "child"), parent, child)
            .unwrap();
    let err = mgr.submit_checkpoint(1100, &validator()).unwrap_err();
    assert_eq!(err.stage, Stage::Submit);
    assert_eq!(err.cause, Error::SubmissionRejected);
}

#[test]
fn failing_template_carries_its_stage() {
    let parent = FakeHandler::new(100, 1200, 1000);
    let mut child = FakeHandler::new(100, 1100, 1000);
    child.fail_template = true;
    let mgr =
        BottomUpManager::new(subnet_cfg(1, "parent"), subnet_cfg(2, "child"), parent, child)
            .unwrap();
    let err = mgr.submit_checkpoint(1100, &validator()).unwrap_err();
    assert_eq!(err.stage, Stage::Template);
    assert_eq!(err.cause, Error::ChainQuery);
}
