//! Where each candidate file is written, and where its original is kept.
use crate::paths::{backup_path, file_name, join, spec_backup_path, spec_file_name, spec_join};
use vstd::prelude::*;

verus! {

/// The settings of one run, fixed when it starts.
#[derive(Clone, Debug)]
pub struct RunConfig {
    /// The directory to scan.
    pub input: Vec<char>,
    /// Where results go; without it every file is rewritten in place.
    pub output: Option<Vec<char>>,
    /// Descend into subdirectories.
    pub recursive: bool,
    /// Report what would be done and change nothing.
    pub dry_run: bool,
    /// Recompress PNG results losslessly.
    pub optimize: bool,
    /// Keep a copy of each original before it is rewritten in place.
    pub backup: bool,
}

/// What is done with one candidate file.
#[derive(Clone, Debug)]
pub struct DispatchPlan {
    pub destination: Vec<char>,
    pub backup: Option<Vec<char>>,
    pub in_place: bool,
}

pub open spec fn opt_view(o: Option<Vec<char>>) -> Option<Seq<char>> {
    match o {
        Some(v) => Some(v@),
        None => None,
    }
}

/// The destination of `source`: inside the output directory under its own
/// file name (subdirectories are flattened), or `source` itself.
pub open spec fn spec_destination(source: Seq<char>, output: Option<Seq<char>>) -> Seq<char> {
    match output {
        Some(dir) => spec_join(dir, spec_file_name(source)),
        None => source,
    }
}

/// The backup path of `source`: only for in-place runs that ask for backups,
/// and only when `source` has an extension.
pub open spec fn spec_backup(source: Seq<char>, output: Option<Seq<char>>, backup: bool) -> Option<
    Seq<char>,
> {
    if backup && output is None {
        spec_backup_path(source)
    } else {
        None
    }
}

impl DispatchPlan {
    /// The plan of `source` under settings `config`, as plain sequences.
    pub open spec fn is_plan_of(self, source: Seq<char>, config: RunConfig) -> bool {
        &&& self.destination@ == spec_destination(source, opt_view(config.output))
        &&& opt_view(self.backup) == spec_backup(source, opt_view(config.output), config.backup)
        &&& self.in_place == (config.output is None)
    }
}

/// Work out the plan of `source`. It reads only the output directory and the
/// backup flag, so a dry run and a real run plan alike.
pub fn plan(source: &Vec<char>, config: &RunConfig) -> (r: DispatchPlan)
    ensures
        r.is_plan_of(source@, *config),
{
    let destination = match &config.output {
        Some(dir) => join(dir, &file_name(source)),
        None => {
            let d = source.clone();
            proof {
                assert(d@ =~= source@);
            }
            d
        },
    };
    let in_place = config.output.is_none();
    let backup = if config.backup && in_place {
        backup_path(source)
    } else {
        None
    };
    DispatchPlan { destination, backup, in_place }
}

/// Plans depend on the settings only through the output directory and the
/// backup flag: a dry run plans the same destinations and backups as a real
/// run with the same settings.
pub proof fn lemma_dry_run_plans_alike(
    source: Seq<char>,
    wet: RunConfig,
    dry: RunConfig,
    p: DispatchPlan,
    q: DispatchPlan,
)
    requires
        opt_view(dry.output) == opt_view(wet.output),
        dry.backup == wet.backup,
        p.is_plan_of(source, wet),
        q.is_plan_of(source, dry),
    ensures
        p.destination@ == q.destination@,
        opt_view(p.backup) == opt_view(q.backup),
        p.in_place == q.in_place,
{
}

} // verus!
