use vstd::prelude::*;
use vstd::string::StringExecFns;
use crate::text::{ends_with, str_ends_with};

verus! {

/// Whether a file name carries the recognised extension.
pub open spec fn is_mod_file(name: Seq<char>, extension: Seq<char>) -> bool {
    ends_with(name, seq!['.'] + extension)
}

/// Whether a file in the mods folder is a mod binary: eligibility is by
/// file extension alone.
pub fn is_mod_binary(name: &str, extension: &str) -> (r: bool)
    ensures
        r == is_mod_file(name@, extension@),
{
    let dot = ".";
    proof {
        reveal_strlit(".");
    }
    assert(dot@ =~= seq!['.']);
    let suffix = String::from_str(dot).concat(extension);
    str_ends_with(name, suffix.as_str())
}

/// The positions of the mod binaries in a folder listing, in discovery order.
pub open spec fn mod_indices(names: Seq<String>, extension: Seq<char>) -> Seq<usize>
    decreases names.len(),
{
    if names.len() == 0 {
        seq![]
    } else {
        let rest = mod_indices(names.drop_last(), extension);
        if is_mod_file(names.last()@, extension) {
            rest.push((names.len() - 1) as usize)
        } else {
            rest
        }
    }
}

/// What became of one mod.
#[derive(Clone, Copy, Debug, PartialEq, Eq, Structural)]
pub enum ModOutcome {
    /// It was instantiated and its `init` returned.
    Loaded,
    /// Its binary could not be instantiated against the import table.
    InstantiationFailed,
    /// It does not export `init`.
    MissingInit,
    /// Its `init` call failed.
    InitFailed,
}

/// The candidates, among the first `outcomes.len()`, that loaded.
pub open spec fn spec_loaded(candidates: Seq<usize>, outcomes: Seq<ModOutcome>) -> Seq<usize>
    decreases outcomes.len(),
{
    if outcomes.len() == 0 {
        seq![]
    } else {
        let rest = spec_loaded(candidates, outcomes.drop_last());
        if outcomes.last() == ModOutcome::Loaded {
            rest.push(candidates[outcomes.len() - 1])
        } else {
            rest
        }
    }
}

/// The candidates, among the first `outcomes.len()`, that were skipped.
pub open spec fn spec_skipped(candidates: Seq<usize>, outcomes: Seq<ModOutcome>) -> Seq<usize>
    decreases outcomes.len(),
{
    if outcomes.len() == 0 {
        seq![]
    } else {
        let rest = spec_skipped(candidates, outcomes.drop_last());
        if outcomes.last() != ModOutcome::Loaded {
            rest.push(candidates[outcomes.len() - 1])
        } else {
            rest
        }
    }
}

/// The mod loader: the mod binaries of a folder listing, tried one after
/// the other in discovery order, each in its own execution context. A mod
/// that fails is skipped and the others still load.
pub struct ModSandbox {
    candidates: Vec<usize>,
    outcomes: Vec<ModOutcome>,
}

impl ModSandbox {
    pub closed spec fn spec_candidates(self) -> Seq<usize> {
        self.candidates@
    }

    pub closed spec fn spec_outcomes(self) -> Seq<ModOutcome> {
        self.outcomes@
    }

    pub open spec fn wf(self) -> bool {
        self.spec_outcomes().len() <= self.spec_candidates().len()
    }

    /// The mods that loaded so far, as positions in the listing.
    pub open spec fn spec_loaded_mods(self) -> Seq<usize> {
        spec_loaded(self.spec_candidates(), self.spec_outcomes())
    }

    /// The mods that were skipped so far, as positions in the listing.
    pub open spec fn spec_skipped_mods(self) -> Seq<usize> {
        spec_skipped(self.spec_candidates(), self.spec_outcomes())
    }

    /// Starts loading from a listing of the mods folder.
    pub fn new(names: &Vec<String>, extension: &str) -> (s: ModSandbox)
        ensures
            s.wf(),
            s.spec_candidates() == mod_indices(names@, extension@),
            s.spec_outcomes().len() == 0,
    {
        let mut candidates: Vec<usize> = Vec::new();
        let mut i: usize = 0;
        while i < names.len()
            invariant
                i <= names@.len(),
                candidates@ == mod_indices(names@.subrange(0, i as int), extension@),
            decreases names@.len() - i,
        {
            proof {
                let next = names@.subrange(0, i as int + 1);
                assert(next.drop_last() =~= names@.subrange(0, i as int));
                assert(next.last() == names@[i as int]);
            }
            if is_mod_binary(names[i].as_str(), extension) {
                candidates.push(i);
            }
            i = i + 1;
        }
        assert(names@.subrange(0, names@.len() as int) =~= names@);
        ModSandbox { candidates, outcomes: Vec::new() }
    }

    /// The position in the listing of the mod to load next, if any is left.
    pub fn next_mod(&self) -> (r: Option<usize>)
        requires
            self.wf(),
        ensures
            r == (if self.spec_outcomes().len() < self.spec_candidates().len() {
                Some(self.spec_candidates()[self.spec_outcomes().len() as int])
            } else {
                None
            }),
    {
        if self.outcomes.len() < self.candidates.len() {
            Some(self.candidates[self.outcomes.len()])
        } else {
            None
        }
    }

    /// Records what became of the mod that `next_mod` named.
    pub fn record(&mut self, outcome: ModOutcome)
        requires
            old(self).wf(),
            old(self).spec_outcomes().len() < old(self).spec_candidates().len(),
        ensures
            final(self).wf(),
            final(self).spec_candidates() == old(self).spec_candidates(),
            final(self).spec_outcomes() == old(self).spec_outcomes().push(outcome),
    {
        self.outcomes.push(outcome);
    }

    /// Whether every mod binary has been tried.
    pub fn is_finished(&self) -> (r: bool)
        ensures
            r == (self.spec_outcomes().len() >= self.spec_candidates().len()),
    {
        self.outcomes.len() >= self.candidates.len()
    }

    /// The mods that loaded, as positions in the listing, in loading order.
    pub fn loaded(&self) -> (r: Vec<usize>)
        requires
            self.wf(),
        ensures
            r@ == self.spec_loaded_mods(),
    {
        let mut out: Vec<usize> = Vec::new();
        let mut k: usize = 0;
        while k < self.outcomes.len()
            invariant
                self.wf(),
                k <= self.outcomes@.len(),
                out@ == spec_loaded(self.candidates@, self.outcomes@.subrange(0, k as int)),
            decreases self.outcomes@.len() - k,
        {
            proof {
                let next = self.outcomes@.subrange(0, k as int + 1);
                assert(next.drop_last() =~= self.outcomes@.subrange(0, k as int));
            }
            if self.outcomes[k] == ModOutcome::Loaded {
                out.push(self.candidates[k]);
            }
            k = k + 1;
        }
        assert(self.outcomes@.subrange(0, self.outcomes@.len() as int) =~= self.outcomes@);
        out
    }
}

/// Empty-folder success: a listing without any mod binary gives a loader
/// that has nothing to load, is finished at once, and loaded no mod.
pub proof fn lemma_empty_folder(names: Seq<String>, extension: Seq<char>)
    requires
        forall|i: int| 0 <= i < names.len() ==> !is_mod_file(#[trigger] names[i]@, extension),
    ensures
        mod_indices(names, extension).len() == 0,
        spec_loaded(mod_indices(names, extension), seq![]).len() == 0,
    decreases names.len(),
{
    if names.len() > 0 {
        let prefix = names.drop_last();
        assert forall|i: int| 0 <= i < prefix.len() implies !is_mod_file(#[trigger] prefix[i]@, extension) by {
            assert(prefix[i] == names[i]);
        }
        lemma_empty_folder(prefix, extension);
        assert(names.last() == names[names.len() - 1]);
    }
}

/// Partial-failure isolation: each mod that loaded is reported loaded and
/// each that failed is reported skipped, whatever became of the others; and
/// every tried mod is in exactly one of the two lists.
pub proof fn lemma_partial_failure_isolation(candidates: Seq<usize>, outcomes: Seq<ModOutcome>)
    requires
        outcomes.len() <= candidates.len(),
    ensures
        forall|k: int| 0 <= k < outcomes.len() && outcomes[k] == ModOutcome::Loaded ==>
            spec_loaded(candidates, outcomes).contains(#[trigger] candidates[k]),
        forall|k: int| 0 <= k < outcomes.len() && outcomes[k] != ModOutcome::Loaded ==>
            spec_skipped(candidates, outcomes).contains(#[trigger] candidates[k]),
        spec_loaded(candidates, outcomes).len() + spec_skipped(candidates, outcomes).len() == outcomes.len(),
    decreases outcomes.len(),
{
    if outcomes.len() > 0 {
        let prefix = outcomes.drop_last();
        lemma_partial_failure_isolation(candidates, prefix);
        let l0 = spec_loaded(candidates, prefix);
        let s0 = spec_skipped(candidates, prefix);
        let l = spec_loaded(candidates, outcomes);
        let s = spec_skipped(candidates, outcomes);
        let last = outcomes.len() - 1;
        assert forall|k: int| 0 <= k < outcomes.len() && outcomes[k] == ModOutcome::Loaded implies l.contains(
            #[trigger] candidates[k],
        ) by {
            if k < last {
                assert(prefix[k] == outcomes[k]);
                assert(l0.contains(candidates[k]));
                let j = choose|j: int| 0 <= j < l0.len() && l0[j] == candidates[k];
                if outcomes.last() == ModOutcome::Loaded {
                    assert(l[j] == l0[j]);
                } else {
                    assert(l == l0);
                }
            } else {
                assert(l[l.len() - 1] == candidates[k]);
            }
        }
        assert forall|k: int| 0 <= k < outcomes.len() && outcomes[k] != ModOutcome::Loaded implies s.contains(
            #[trigger] candidates[k],
        ) by {
            if k < last {
                assert(prefix[k] == outcomes[k]);
                assert(s0.contains(candidates[k]));
                let j = choose|j: int| 0 <= j < s0.len() && s0[j] == candidates[k];
                if outcomes.last() != ModOutcome::Loaded {
                    assert(s[j] == s0[j]);
                } else {
                    assert(s == s0);
                }
            } else {
                assert(s[s.len() - 1] == candidates[k]);
            }
        }
    }
}

} // verus!
