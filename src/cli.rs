use vstd::prelude::*;
use crate::stats::{merge_zero_identity, total, total_fits, zero_counters, Stats};

verus! {

/// What a run measures: one file, or every Rust file under a project's `src`.
#[derive(Debug, Clone)]
pub struct Cli {
    /// A project root, or a single file when `file` is set.
    pub project_root: String,
    /// Measure `project_root` as a single file.
    pub file: bool,
    /// Report each file's record as it is measured.
    pub verbose: bool,
}

impl Cli {
    /// The run's result from the records of the files it measured: the one
    /// file's record in single-file mode, else the merge of all of them.
    pub fn evaluate(&self, per_file: &Vec<Stats>) -> (r: Stats)
        requires
            self.file ==> per_file@.len() == 1,
            total_fits(per_file@),
        ensures
            r@ == total(per_file@),
    {
        if self.file {
            proof {
                assert(per_file@.drop_last() =~= Seq::<Stats>::empty());
                assert(total(per_file@.drop_last()) == zero_counters());
                merge_zero_identity(per_file@[0]);
                assert(total(per_file@) == crate::stats::merge(zero_counters(), per_file@[0]@));
            }
            per_file[0]
        } else {
            Stats::sum(per_file)
        }
    }
}

} // verus!
