//! The cooperative job queue: promise reactions and other queued work.
//!
//! Draining the queue is an explicit, synchronous call — there is no
//! background thread. The job's function itself is host code; the engine
//! carries only the values the job was enqueued with and hands them back
//! when the job is run.

use vstd::prelude::*;

use crate::context::{ContextRef, CtxtV};
use crate::error::Error;
use crate::func::Args;
use crate::runtime::RtV;
use crate::value::Value;

verus! {

impl ContextRef {
    /// Queue a job with the given argument values; their references move
    /// into the queue until the job runs.
    pub fn enqueue_job<T: Args>(&mut self, args: T) -> (r: Result<(), Error>)
        requires
            args.args_req(old(self)@),
        ensures
            r == Ok::<(), Error>(()),
            ({
                let mid = args.args_post(old(self)@);
                final(self)@ == (CtxtV {
                    rt: RtV {
                        jobs: mid.rt.jobs.push(args.args_vals(old(self)@)),
                        ..mid.rt
                    },
                    ..mid
                })
            }),
    {
        let vals = args.into_values(self);
        self.rt.jobs.push(vals);
        proof {
            assert(self@.rt.jobs =~~= args.args_post(old(self)@).rt.jobs.push(
                args.args_vals(old(self)@),
            ));
            assert(self@.rt.slots =~= args.args_post(old(self)@).rt.slots);
            assert(self@.rt.atoms =~= args.args_post(old(self)@).rt.atoms);
        }
        Ok(())
    }

    /// Take the oldest pending job, handing its argument values — and
    /// their references — back to the host, which runs the job's function
    /// with them and releases them; `None` when no job is pending.
    pub fn execute_pending_job(&mut self) -> (r: Option<Vec<Value>>)
        ensures
            match r {
                Some(vals) => old(self)@.rt.jobs.len() > 0 && vals@ == old(self)@.rt.jobs[0]
                    && final(self)@ == (CtxtV {
                    rt: RtV { jobs: old(self)@.rt.jobs.remove(0), ..old(self)@.rt },
                    ..old(self)@
                }),
                None => old(self)@.rt.jobs.len() == 0 && final(self)@ == old(self)@,
            },
    {
        if self.rt.jobs.len() == 0 {
            None
        } else {
            let vals = self.rt.jobs.remove(0);
            proof {
                assert(self@.rt.jobs =~~= old(self)@.rt.jobs.remove(0));
                assert(self@.rt.slots =~= old(self)@.rt.slots);
                assert(self@.rt.atoms =~= old(self)@.rt.atoms);
            }
            Some(vals)
        }
    }

    /// Whether a queued job is still waiting to run.
    pub fn is_job_pending(&self) -> (r: bool)
        ensures
            r == (self@.rt.jobs.len() > 0),
    {
        self.rt.is_job_pending()
    }
}

} // verus!
