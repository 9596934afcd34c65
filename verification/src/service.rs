//! A handler's step carried out on the tables: the statement is run, and the
//! handler is taken up again with the answer.

use crate::gateway::Tables;
use crate::handlers::{resume, respond, Step, StepView};
use crate::response::{Response, ResponseView};
use crate::store::Store;
use vstd::prelude::*;

verus! {

/// What the tables are after `step`, and what is answered.
pub open spec fn outcome(tables: Tables, step: StepView) -> (Tables, ResponseView) {
    match step {
        StepView::Ask { query, pending } => {
            let (after, reply) = tables.execute(query);
            (after, respond(pending, reply))
        },
        StepView::Done(response) => (tables, response),
    }
}

/// What the tables are after each of `steps` in turn.
pub open spec fn run(tables: Tables, steps: Seq<StepView>) -> Tables
    decreases steps.len(),
{
    if steps.len() == 0 {
        tables
    } else {
        outcome(run(tables, steps.drop_last()), steps.last()).0
    }
}

/// Carries out a handler's step on the store, and gives the response.
pub fn complete(store: &mut Store, step: Step) -> (response: Response)
    requires
        old(store).wf(),
    ensures
        final(store).wf(),
        (final(store)@, response@) == outcome(old(store)@, step@),
{
    match step {
        Step::Ask { query, pending } => {
            let reply = store.execute(query);
            resume(pending, reply)
        },
        Step::Done(response) => response,
    }
}

} // verus!
