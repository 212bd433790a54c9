//! The life of one candidate file, as a state machine. The caller performs
//! each action it asks for (copy, read, write) and hands back what happened;
//! decoding, encoding and recompression happen here.
use crate::codec::{
    decodable, kind_of_path, recompressed, recompresses, reencoded, optimize_png, reencode, should_recompress, spec_kind_of_path,
    ImageKind,
};
use crate::plan::{opt_view, plan, DispatchPlan, RunConfig};
use crate::summary::{Failure, Outcome};
use vstd::prelude::*;

verus! {

/// Where a file stands in its pipeline.
#[derive(Clone, Debug)]
pub enum Stage {
    Start,
    /// A dry run reported what it would do.
    Previewed,
    AwaitBackup,
    AwaitRead,
    /// The encoded image is being written; `pending` keeps it when it is to
    /// be recompressed afterwards.
    AwaitWrite { pending: Option<Vec<u8>> },
    AwaitOptimizedWrite,
    Done(Outcome),
}

/// What became of the last action.
#[derive(Clone, Debug)]
pub enum Event {
    /// Nothing was asked for yet.
    Begin,
    Succeeded,
    Failed,
    /// The bytes of the source file.
    Bytes(Vec<u8>),
}

/// What the caller is asked to do next.
#[derive(Clone, Debug)]
pub enum Action {
    /// Dry run: report the intended destination and backup, touch nothing.
    Preview { source: Vec<char>, destination: Vec<char>, backup: Option<Vec<char>> },
    /// Copy the original, byte for byte, over whatever is at `to`.
    CopyBackup { from: Vec<char>, to: Vec<char> },
    ReadSource { path: Vec<char> },
    /// Write `bytes` over whatever is at `path`.
    WriteDestination { path: Vec<char>, bytes: Vec<u8> },
    /// The file is done with.
    Finish(Outcome),
}

impl Action {
    /// Whether the action changes anything on disk.
    pub open spec fn mutates(self) -> bool {
        self is CopyBackup || self is WriteDestination
    }
}

/// One candidate file on its way through the pipeline.
#[derive(Clone, Debug)]
pub struct FileJob {
    pub source: Vec<char>,
    pub plan: DispatchPlan,
    pub kind: ImageKind,
    pub dry_run: bool,
    pub optimize: bool,
    pub stage: Stage,
    /// The requested backup has been made.
    pub backed_up: bool,
}

impl FileJob {
    pub open spec fn wf(self) -> bool {
        &&& spec_kind_of_path(self.source@) == Some(self.kind)
        &&& self.dry_run ==> (self.stage is Start || self.stage is Previewed || self.stage
            == Stage::Done(Outcome::Processed))
        &&& self.stage is AwaitBackup ==> self.plan.backup is Some && !self.dry_run
        &&& (self.stage is AwaitRead || self.stage is AwaitWrite || self.stage
            is AwaitOptimizedWrite) ==> (self.plan.backup is Some ==> self.backed_up)
        &&& self.stage is Start ==> !self.backed_up
        &&& self.stage matches Stage::AwaitWrite { pending } ==> (pending is Some
            <==> recompresses(self.optimize, self.kind))
        &&& self.stage is AwaitOptimizedWrite ==> recompresses(self.optimize, self.kind)
    }

    /// Everything but the stage and the backup mark stays as it was made.
    pub open spec fn same_file(self, other: FileJob) -> bool {
        &&& self.source == other.source
        &&& self.plan == other.plan
        &&& self.kind == other.kind
        &&& self.dry_run == other.dry_run
        &&& self.optimize == other.optimize
    }

    /// The job of `source` under `config`; none when its extension names no
    /// image format.
    pub fn new(source: Vec<char>, config: &RunConfig) -> (r: Option<FileJob>)
        ensures
            r is Some <==> spec_kind_of_path(source@) is Some,
            r matches Some(j) ==> {
                &&& j.wf()
                &&& j.source@ == source@
                &&& j.plan.is_plan_of(source@, *config)
                &&& j.dry_run == config.dry_run
                &&& j.optimize == config.optimize
                &&& j.stage is Start
            },
    {
        match kind_of_path(&source) {
            Some(kind) => {
                let p = plan(&source, config);
                Some(
                    FileJob {
                        source,
                        plan: p,
                        kind,
                        dry_run: config.dry_run,
                        optimize: config.optimize,
                        stage: Stage::Start,
                        backed_up: false,
                    },
                )
            },
            None => None,
        }
    }

    /// Take in what became of the last action and say what to do next.
    pub fn step(&mut self, event: Event) -> (r: Action)
        requires
            old(self).wf(),
        ensures
            final(self).wf(),
            final(self).same_file(*old(self)),
            // a dry run never changes anything on disk
            old(self).dry_run ==> !r.mutates(),
            // the destination is written only after a requested backup was made
            r matches Action::WriteDestination { path, bytes } ==> {
                &&& path@ == old(self).plan.destination@
                &&& (old(self).plan.backup is Some ==> final(self).backed_up)
            },
            r is Finish <==> final(self).stage is Done,
            r matches Action::Finish(o) ==> final(self).stage == Stage::Done(o),
            match old(self).stage {
                Stage::Start => if old(self).dry_run {
                    &&& r matches Action::Preview { source, destination, backup } && source@
                        == old(self).source@ && destination@ == old(self).plan.destination@
                        && opt_view(backup) == opt_view(old(self).plan.backup)
                    &&& final(self).stage is Previewed
                } else if old(self).plan.backup is Some {
                    &&& r matches Action::CopyBackup { from, to } && from@ == old(self).source@
                        && Some(to@) == opt_view(old(self).plan.backup)
                    &&& final(self).stage is AwaitBackup
                } else {
                    &&& r matches Action::ReadSource { path } && path@ == old(self).source@
                    &&& final(self).stage is AwaitRead
                },
                Stage::Previewed => r == Action::Finish(Outcome::Processed),
                Stage::AwaitBackup => if event is Succeeded {
                    &&& r matches Action::ReadSource { path } && path@ == old(self).source@
                    &&& final(self).stage is AwaitRead
                    &&& final(self).backed_up
                } else {
                    r == Action::Finish(Outcome::Errored(Failure::Io))
                },
                Stage::AwaitRead => match event {
                    Event::Bytes(b) => if !decodable(b@, old(self).kind) {
                        r == Action::Finish(Outcome::Errored(Failure::Decode))
                    } else {
                        match reencoded(b@, old(self).kind) {
                            Some(e) => {
                                &&& r matches Action::WriteDestination { bytes, .. } && bytes@ == e
                                &&& final(self).stage matches Stage::AwaitWrite { pending } && (
                                pending matches Some(p) ==> p@ == e)
                            },
                            None => r == Action::Finish(Outcome::Errored(Failure::Encode)),
                        }
                    },
                    _ => r == Action::Finish(Outcome::Errored(Failure::Io)),
                },
                Stage::AwaitWrite { pending } => if event is Succeeded {
                    if recompresses(old(self).optimize, old(self).kind) {
                        match recompressed(pending->Some_0@) {
                            Some(o) => {
                                &&& r matches Action::WriteDestination { bytes, .. } && bytes@ == o
                                    && bytes@.len() <= pending->Some_0@.len()
                                &&& final(self).stage is AwaitOptimizedWrite
                            },
                            None => r == Action::Finish(Outcome::Errored(Failure::Optimize)),
                        }
                    } else {
                        r == Action::Finish(Outcome::Processed)
                    }
                } else {
                    r == Action::Finish(Outcome::Errored(Failure::Encode))
                },
                Stage::AwaitOptimizedWrite => if event is Succeeded {
                    r == Action::Finish(Outcome::Processed)
                } else {
                    r == Action::Finish(Outcome::Errored(Failure::Io))
                },
                Stage::Done(o) => r == Action::Finish(o),
            },
    {
        let mut stage = Stage::Done(Outcome::Processed);
        std::mem::swap(&mut stage, &mut self.stage);
        match stage {
            Stage::Start => {
                if self.dry_run {
                    self.stage = Stage::Previewed;
                    Action::Preview {
                        source: self.source.clone(),
                        destination: self.plan.destination.clone(),
                        backup: self.plan.backup.clone(),
                    }
                } else {
                    match &self.plan.backup {
                        Some(to) => {
                            self.stage = Stage::AwaitBackup;
                            Action::CopyBackup { from: self.source.clone(), to: to.clone() }
                        },
                        None => {
                            self.stage = Stage::AwaitRead;
                            Action::ReadSource { path: self.source.clone() }
                        },
                    }
                }
            },
            Stage::Previewed => self.finish(Outcome::Processed),
            Stage::AwaitBackup => match event {
                Event::Succeeded => {
                    self.backed_up = true;
                    self.stage = Stage::AwaitRead;
                    Action::ReadSource { path: self.source.clone() }
                },
                _ => self.finish(Outcome::Errored(Failure::Io)),
            },
            Stage::AwaitRead => match event {
                Event::Bytes(b) => match reencode(b.as_slice(), self.kind) {
                    Ok(encoded) => {
                        let pending = if should_recompress(self.optimize, self.kind) {
                            Some(encoded.clone())
                        } else {
                            None
                        };
                        self.stage = Stage::AwaitWrite { pending };
                        Action::WriteDestination {
                            path: self.plan.destination.clone(),
                            bytes: encoded,
                        }
                    },
                    Err(f) => self.finish(Outcome::Errored(f)),
                },
                _ => self.finish(Outcome::Errored(Failure::Io)),
            },
            Stage::AwaitWrite { pending } => match event {
                Event::Succeeded => match pending {
                    Some(encoded) => match optimize_png(encoded.as_slice()) {
                        Ok(smaller) => {
                            self.stage = Stage::AwaitOptimizedWrite;
                            Action::WriteDestination {
                                path: self.plan.destination.clone(),
                                bytes: smaller,
                            }
                        },
                        Err(f) => self.finish(Outcome::Errored(f)),
                    },
                    None => self.finish(Outcome::Processed),
                },
                _ => self.finish(Outcome::Errored(Failure::Encode)),
            },
            Stage::AwaitOptimizedWrite => match event {
                Event::Succeeded => self.finish(Outcome::Processed),
                _ => self.finish(Outcome::Errored(Failure::Io)),
            },
            Stage::Done(o) => self.finish(o),
        }
    }

    fn finish(&mut self, o: Outcome) -> (r: Action)
        ensures
            final(self).stage == Stage::Done(o),
            final(self).same_file(*old(self)),
            final(self).backed_up == old(self).backed_up,
            r == Action::Finish(o),
    {
        self.stage = Stage::Done(o);
        Action::Finish(o)
    }
}

/// A job that asked for a backup and has not made it reads and writes
/// nothing: once the copy fails, the original stays as it was and is never
/// transcoded.
pub proof fn lemma_no_transcode_without_backup(j: FileJob)
    requires
        j.wf(),
        j.plan.backup is Some,
        !j.backed_up,
    ensures
        !(j.stage is AwaitRead || j.stage is AwaitWrite || j.stage is AwaitOptimizedWrite),
{
}

} // verus!
