//! Bringing the platform up to date, batch by batch: the first batch that fails
//! ends the deployment, and only a deployment that got through hands the registry
//! on.

use vstd::prelude::*;

use crate::commands::bundle::CommandBundle;
use crate::commands::registry::batch_views;
use crate::commands::registry::planned_batches;
use crate::commands::registry::CommandBatch;
use crate::commands::registry::CommandBatchView;
use crate::commands::registry::CommandRegistry;
use crate::text::reversed;

verus! {

/// A deployment under way: the registry that is being deployed and the batches
/// that have not been handed out yet.
pub struct Deployment<B> {
    registry: CommandRegistry<B>,
    /// The batches still to send, the next one last.
    waiting: Vec<CommandBatch>,
}

/// What a deployment does next.
pub enum DeployStep<B> {
    /// Send `batch`, then come back to `then` with the outcome.
    Send { batch: CommandBatch, then: Deployment<B> },
    /// Every batch got through: `registry` is deployed.
    Done { registry: CommandRegistry<B> },
    /// A batch did not get through: the deployment has failed, for the reason the
    /// transport gave, and the registry is given up.
    Failed { detail: String },
}

impl<B> Deployment<B> {
    /// The registry that is being deployed.
    pub closed spec fn registry(&self) -> CommandRegistry<B> {
        self.registry
    }

    /// The batches that have not been handed out yet, in the order in which they
    /// are to be sent.
    pub closed spec fn pending(&self) -> Seq<CommandBatchView> {
        Seq::new(self.waiting@.len(), |i: int| self.waiting@[self.waiting@.len() - 1 - i]@)
    }

    /// Whether `step` is what the deployment does once `outcome` is known, the
    /// outcome of the batch sent before, `None` where none was sent. A failure
    /// ends the deployment; otherwise the next batch is sent, or, none being
    /// left, the deployment is done and hands its registry on.
    pub open spec fn does(self, outcome: Option<Result<(), String>>, step: DeployStep<B>) -> bool {
        match outcome {
            Some(Err(detail)) => step matches DeployStep::Failed { detail: reason } && reason
                == detail,
            _ => if self.pending().len() > 0 {
                &&& step matches DeployStep::Send { batch, then }
                &&& batch@ == self.pending()[0]
                &&& then.pending() == self.pending().drop_first()
                &&& then.registry() == self.registry()
            } else {
                step matches DeployStep::Done { registry } && registry == self.registry()
            },
        }
    }

    /// Decides what the deployment does once the outcome of the batch sent before
    /// is known; `None` where no batch was sent before.
    pub fn advance(self, outcome: Option<Result<(), String>>) -> (step: DeployStep<B>)
        ensures
            self.does(outcome, step),
    {
        match outcome {
            Some(Err(detail)) => DeployStep::Failed { detail },
            _ => {
                let ghost before = self.pending();
                let Deployment { registry, waiting } = self;
                let mut waiting = waiting;
                match waiting.pop() {
                    Some(batch) => {
                        let then = Deployment { registry, waiting };
                        assert(then.pending() =~= before.drop_first());
                        DeployStep::Send { batch, then }
                    },
                    None => DeployStep::Done { registry },
                }
            },
        }
    }
}

impl<B: CommandBundle> CommandRegistry<B> {
    /// Begins the deployment of the registry: every batch of
    /// [`CommandRegistry::deploy`] is still to send.
    pub fn begin_deployment(self) -> (deployment: Deployment<B>)
        ensures
            deployment.registry() == self,
            deployment.pending() == planned_batches(self.keys(), self.commands()),
    {
        let batches = self.deploy();
        let ghost planned = batch_views(batches@);
        let waiting = reversed(batches);
        let deployment = Deployment { registry: self, waiting };
        assert(deployment.pending() =~= planned);
        deployment
    }
}

} // verus!
