//! Judging a broadcast: the same change was asked of every target, each light on
//! its own, and the failures are gathered once all were tried.

use vstd::prelude::*;

verus! {

/// What came of the update of one light.
#[derive(Clone, Debug, PartialEq, Eq)]
pub struct UpdateOutcome {
    /// The identifier of the light that was addressed.
    pub light: String,
    /// Whether the bridge accepted the update.
    pub succeeded: bool,
}

/// Some lights were not updated.
#[derive(Clone, Debug, PartialEq, Eq)]
pub struct ApplyError {
    /// The identifiers of the lights whose update failed, in the order in which
    /// they were tried.
    pub failed: Vec<String>,
}

/// The lights whose update failed, in the order of the outcomes.
pub open spec fn failures(outcomes: Seq<UpdateOutcome>) -> Seq<String>
    decreases outcomes.len(),
{
    if outcomes.len() == 0 {
        Seq::empty()
    } else if outcomes.last().succeeded {
        failures(outcomes.drop_last())
    } else {
        failures(outcomes.drop_last()).push(outcomes.last().light)
    }
}

/// Gathers the failures of a broadcast. No failure hides another: the error
/// names every light whose update failed.
pub fn summarize(outcomes: &Vec<UpdateOutcome>) -> (r: Result<(), ApplyError>)
    ensures
        r is Ok <==> failures(outcomes@).len() == 0,
        r matches Err(e) ==> e.failed@ == failures(outcomes@),
{
    let mut failed: Vec<String> = Vec::new();
    let mut i: usize = 0;
    while i < outcomes.len()
        invariant
            0 <= i <= outcomes.len(),
            failed@ == failures(outcomes@.subrange(0, i as int)),
        decreases outcomes.len() - i,
    {
        proof {
            assert(outcomes@.subrange(0, i + 1).drop_last() =~= outcomes@.subrange(0, i as int));
            assert(outcomes@.subrange(0, i + 1).last() == outcomes@[i as int]);
        }
        if !outcomes[i].succeeded {
            failed.push(outcomes[i].light.clone());
        }
        i = i + 1;
    }
    proof {
        assert(outcomes@.subrange(0, outcomes@.len() as int) =~= outcomes@);
    }
    if failed.len() == 0 {
        Ok(())
    } else {
        Err(ApplyError { failed })
    }
}

/// A broadcast has no failure exactly when every update succeeded, and a light
/// is named as failed exactly when some outcome reports its update as failed.
pub proof fn lemma_failures_complete(outcomes: Seq<UpdateOutcome>)
    ensures
        failures(outcomes).len() == 0 <==> forall|i: int|
            0 <= i < outcomes.len() ==> (#[trigger] outcomes[i]).succeeded,
        failures(outcomes).len() <= outcomes.len(),
        forall|light: String| #[trigger]
            failures(outcomes).contains(light) <==> exists|i: int|
                0 <= i < outcomes.len() && !(#[trigger] outcomes[i]).succeeded && outcomes[i].light
                    == light,
    decreases outcomes.len(),
{
    if outcomes.len() > 0 {
        let shorter = outcomes.drop_last();
        lemma_failures_complete(shorter);
        let last = outcomes.last();
        assert forall|light: String| #[trigger]
            failures(outcomes).contains(light) <==> exists|i: int|
                0 <= i < outcomes.len() && !(#[trigger] outcomes[i]).succeeded && outcomes[i].light
                    == light by {
            if failures(outcomes).contains(light) {
                let k = choose|k: int|
                    0 <= k < failures(outcomes).len() && failures(outcomes)[k] == light;
                if !last.succeeded && k == failures(shorter).len() {
                    assert(outcomes[outcomes.len() - 1] == last);
                } else {
                    assert(failures(shorter)[k] == light);
                    assert(failures(shorter).contains(light));
                    let i = choose|i: int|
                        0 <= i < shorter.len() && !(#[trigger] shorter[i]).succeeded && shorter[i].light
                            == light;
                    assert(outcomes[i] == shorter[i]);
                }
            }
            if exists|i: int|
                0 <= i < outcomes.len() && !(#[trigger] outcomes[i]).succeeded && outcomes[i].light
                    == light {
                let i = choose|i: int|
                    0 <= i < outcomes.len() && !(#[trigger] outcomes[i]).succeeded
                        && outcomes[i].light == light;
                if i == outcomes.len() - 1 {
                    assert(failures(outcomes)[failures(shorter).len() as int] == light);
                } else {
                    assert(shorter[i] == outcomes[i]);
                    assert(failures(shorter).contains(light));
                    let k = choose|k: int|
                        0 <= k < failures(shorter).len() && failures(shorter)[k] == light;
                    assert(failures(outcomes)[k] == light);
                }
            }
        }
        if forall|i: int| 0 <= i < outcomes.len() ==> (#[trigger] outcomes[i]).succeeded {
            assert forall|i: int| 0 <= i < shorter.len() implies (#[trigger] shorter[i]).succeeded by {
                assert(shorter[i] == outcomes[i]);
            }
        }
        if failures(outcomes).len() == 0 {
            assert forall|i: int| 0 <= i < outcomes.len() implies (#[trigger] outcomes[i]).succeeded by {
                if i < shorter.len() {
                    assert(shorter[i] == outcomes[i]);
                }
            }
        }
    }
}

} // verus!
