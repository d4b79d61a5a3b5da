//! The evaluation pipeline as a state machine. One invocation, holding
//! the scratch-directory lock, walks the phases stage → compile →
//! execute → cleanup; each step takes the outcome of the previous
//! outside action and decides the next action. Every terminal step says
//! which artifacts to delete and that the lock is to be released.

use vstd::prelude::*;
use vstd::string::*;

use crate::args::{
    filter_rustc_args, merge_externs, extra_filename, spec_extra_filename,
    spec_filter_rustc_args, spec_merge_externs, views,
};
use crate::hashing::{spec_staged_path, staged_path};
use crate::synth::{
    aux_program, compile_failed_msg, run_failed_msg, spec_aux_program, spec_compile_failed_msg,
    spec_missing_type_msg, spec_not_utf8_msg, spec_run_failed_msg, spec_splice_expr, splice_expr,
};

verus! {

/// Where an invocation stands in the cycle.
pub enum Phase {
    /// The lock is held; nothing has been examined yet.
    Ready,
    /// The staged source is being written.
    Staging,
    /// The toolchain is compiling the staged source.
    Compiling,
    /// The produced auxiliary executable is running.
    Running,
    /// The invocation is over; no further step is allowed.
    Done,
}

/// What to delete and whether to release the lock when the invocation
/// ends. Deletion is best-effort; releasing the lock is not.
pub struct Cleanup {
    pub remove_source: Option<String>,
    pub remove_binary: Option<String>,
    pub release_lock: bool,
}

/// How the invocation ends.
pub enum Outcome {
    /// Success: the replacement expression to splice in.
    Splice(String),
    /// A build-time diagnostic at the invocation site.
    Reject(String),
    /// An infrastructure failure: the build step aborts.
    Fatal(String),
}

/// A terminal step: cleanup, then the outcome.
pub struct Finish {
    pub cleanup: Cleanup,
    pub outcome: Outcome,
}

/// The next action the driver is to perform.
pub enum Step {
    /// Write `source` to `path` in the scratch directory, then report
    /// whether the write succeeded.
    Stage { path: String, source: String },
    /// Invoke the toolchain with exactly these arguments, then report
    /// its exit status and captured error stream.
    Compile { cmd: Vec<String> },
    /// Invoke the produced executable at `path` with no arguments, then
    /// report its exit status and captured streams.
    Execute { path: String },
    /// Perform the cleanup, then surface the outcome.
    Finish(Finish),
}

/// The toolchain argument list for the staged source: the translated
/// flags of the current context, then the fixed overrides (artifact
/// kind, synthetic program name, output directory), then the re-emitted
/// external bindings, then the source path.
pub open spec fn spec_compile_cmd(
    args: Seq<Seq<char>>,
    out_dir: Seq<char>,
    source: Seq<char>,
) -> Seq<Seq<char>> {
    spec_filter_rustc_args(args) + seq![
        "--crate-name"@,
        "edg_bin"@,
        "--crate-type"@,
        "bin"@,
        "--out-dir"@,
        out_dir,
    ] + spec_merge_externs(args) + seq![source]
}

/// The path of the executable the toolchain produces: the synthetic
/// program name plus the compiler-added suffix read from the context.
pub open spec fn spec_binary_path(out_dir: Seq<char>, args: Seq<Seq<char>>) -> Seq<char> {
    out_dir + "/edg_bin"@ + spec_extra_filename(args)
}

/// Builds the toolchain argument list, specified by `spec_compile_cmd`.
pub fn compile_cmd(args: &Vec<String>, out_dir: &str, source: &str) -> (r: Vec<String>)
    ensures
        views(r@) == spec_compile_cmd(views(args@), out_dir@, source@),
{
    let mut r = filter_rustc_args(args);
    r.push("--crate-name".to_owned());
    r.push("edg_bin".to_owned());
    r.push("--crate-type".to_owned());
    r.push("bin".to_owned());
    r.push("--out-dir".to_owned());
    r.push(out_dir.to_owned());
    let mut ext = merge_externs(args);
    r.append(&mut ext);
    r.push(source.to_owned());
    proof {
        assert(views(r@) =~= spec_compile_cmd(views(args@), out_dir@, source@));
    }
    r
}

/// Builds the produced executable's path, specified by
/// `spec_binary_path`.
pub fn binary_path_of(out_dir: &str, args: &Vec<String>) -> (r: String)
    ensures
        r@ == spec_binary_path(out_dir@, views(args@)),
{
    let extra = extra_filename(args);
    let mut r = out_dir.to_owned();
    r.append("/edg_bin");
    r.append(extra.as_str());
    proof {
        assert(r@ =~= spec_binary_path(out_dir@, views(args@)));
    }
    r
}

/// One invocation of the pipeline. Constructed only once the scratch
/// directory's lock is held; the lock stays held until a `Finish` step
/// releases it.
pub struct Pipeline {
    pub phase: Phase,
    /// The scratch directory, shared by all concurrent invocations.
    pub out_dir: String,
    /// The invocation context: the current build step's flags, read
    /// once and never mutated.
    pub args: Vec<String>,
    /// The declared result type, once parsed.
    pub ty: Option<String>,
    /// The staged source path, once staging was requested.
    pub source_path: Option<String>,
    /// The produced executable's path, once execution was requested.
    pub binary_path: Option<String>,
    /// Whether a `Stage` action was ever issued.
    pub stage_issued: bool,
    /// Whether an `Execute` action was ever issued.
    pub exec_issued: bool,
}

impl Pipeline {
    /// The phases agree with the recorded data.
    pub open spec fn wf(self) -> bool {
        &&& (self.phase is Staging || self.phase is Compiling || self.phase is Running) ==> (
        self.ty is Some && self.source_path is Some)
        &&& self.phase is Running ==> self.binary_path is Some
    }

    /// Begins an invocation that holds the lock, over an immutable
    /// snapshot of the current build flags.
    pub fn new(out_dir: String, args: Vec<String>) -> (p: Pipeline)
        ensures
            p.wf(),
            p.phase is Ready,
            p.out_dir == out_dir,
            p.args == args,
            !p.stage_issued,
            !p.exec_issued,
    {
        Pipeline {
            phase: Phase::Ready,
            out_dir,
            args,
            ty: None,
            source_path: None,
            binary_path: None,
            stage_issued: false,
            exec_issued: false,
        }
    }

    /// Takes what parsing extracted: the declared result type, if one
    /// was written, and the body text. A missing declared type is a
    /// usage error: the invocation ends at once, before any file is
    /// staged, with the lock released and nothing to delete. Otherwise
    /// the declared type and the body are hashed and the auxiliary
    /// program is staged under the hash-derived name.
    pub fn on_parsed(&mut self, ty: Option<String>, body: &str) -> (step: Step)
        requires
            old(self).phase is Ready,
            old(self).wf(),
            !old(self).stage_issued,
        ensures
            final(self).wf(),
            final(self).out_dir == old(self).out_dir,
            final(self).args == old(self).args,
            final(self).exec_issued == old(self).exec_issued,
            final(self).stage_issued == (ty is Some),
            ty is None ==> ({
                &&& final(self).phase is Done
                &&& step matches Step::Finish(f)
                &&& f.cleanup.remove_source is None
                &&& f.cleanup.remove_binary is None
                &&& f.cleanup.release_lock
                &&& f.outcome matches Outcome::Reject(m)
                &&& m@ == spec_missing_type_msg()
            }),
            ty is Some ==> ({
                &&& ty matches Some(t)
                &&& final(self).phase is Staging
                &&& final(self).ty == Some(t)
                &&& step matches Step::Stage { path, source }
                &&& path@ == spec_staged_path(old(self).out_dir@, t@, body@)
                &&& source@ == spec_aux_program(t@, body@)
                &&& final(self).source_path matches Some(sp)
                &&& sp@ == path@
            }),
    {
        match ty {
            None => {
                self.phase = Phase::Done;
                Step::Finish(
                    Finish {
                        cleanup: Cleanup {
                            remove_source: None,
                            remove_binary: None,
                            release_lock: true,
                        },
                        outcome: Outcome::Reject("specify return type of closure".to_owned()),
                    },
                )
            },
            Some(t) => {
                let path = staged_path(self.out_dir.as_str(), t.as_str(), body);
                let source = aux_program(t.as_str(), body);
                self.ty = Some(t);
                self.source_path = Some(path.clone());
                self.stage_issued = true;
                self.phase = Phase::Staging;
                Step::Stage { path, source }
            },
        }
    }

    /// Takes whether the staged source could be written. Failure to
    /// write is an infrastructure error: the build step aborts, after
    /// best-effort deletion and release of the lock. On success the
    /// toolchain is invoked with the translated flags, the fixed
    /// overrides and the re-emitted external bindings.
    pub fn on_staged(&mut self, ok: bool) -> (step: Step)
        requires
            old(self).phase is Staging,
            old(self).wf(),
        ensures
            final(self).wf(),
            final(self).out_dir == old(self).out_dir,
            final(self).args == old(self).args,
            final(self).ty == old(self).ty,
            final(self).source_path == old(self).source_path,
            final(self).stage_issued == old(self).stage_issued,
            final(self).exec_issued == old(self).exec_issued,
            !ok ==> ({
                &&& final(self).phase is Done
                &&& step matches Step::Finish(f)
                &&& old(self).source_path matches Some(sp)
                &&& f.cleanup.remove_source matches Some(rs)
                &&& rs@ == sp@
                &&& f.cleanup.remove_binary is None
                &&& f.cleanup.release_lock
                &&& f.outcome matches Outcome::Fatal(m)
                &&& m@ == "could not write file"@
            }),
            ok ==> ({
                &&& final(self).phase is Compiling
                &&& step matches Step::Compile { cmd }
                &&& old(self).source_path matches Some(sp)
                &&& views(cmd@) == spec_compile_cmd(
                    views(old(self).args@),
                    old(self).out_dir@,
                    sp@,
                )
            }),
    {
        let source = match &self.source_path {
            Some(p) => p.clone(),
            None => {
                proof {
                    assert(false);
                }
                String::new()
            },
        };
        if !ok {
            self.phase = Phase::Done;
            return Step::Finish(
                Finish {
                    cleanup: Cleanup {
                        remove_source: Some(source),
                        remove_binary: None,
                        release_lock: true,
                    },
                    outcome: Outcome::Fatal("could not write file".to_owned()),
                },
            );
        }
        let cmd = compile_cmd(&self.args, self.out_dir.as_str(), source.as_str());
        self.phase = Phase::Compiling;
        Step::Compile { cmd }
    }

    /// Takes the toolchain's outcome. A toolchain that could not be
    /// spawned is an infrastructure error. A nonzero exit fails the
    /// invocation: the captured error stream is surfaced verbatim in
    /// the diagnostic, the staged source is deleted, the lock is
    /// released, and no auxiliary executable is ever invoked. On
    /// success the produced executable is located by the toolchain's
    /// naming convention and invoked.
    pub fn on_compiled(&mut self, ran: bool, success: bool, stderr: &str) -> (step: Step)
        requires
            old(self).phase is Compiling,
            old(self).wf(),
            !old(self).exec_issued,
        ensures
            final(self).wf(),
            final(self).out_dir == old(self).out_dir,
            final(self).args == old(self).args,
            final(self).ty == old(self).ty,
            final(self).source_path == old(self).source_path,
            final(self).stage_issued == old(self).stage_issued,
            !ran ==> ({
                &&& final(self).phase is Done
                &&& !final(self).exec_issued
                &&& step matches Step::Finish(f)
                &&& old(self).source_path matches Some(sp)
                &&& f.cleanup.remove_source matches Some(rs)
                &&& rs@ == sp@
                &&& f.cleanup.remove_binary is None
                &&& f.cleanup.release_lock
                &&& f.outcome matches Outcome::Fatal(m)
                &&& m@ == "could not invoke rustc"@
            }),
            ran && !success ==> ({
                &&& final(self).phase is Done
                &&& !final(self).exec_issued
                &&& step matches Step::Finish(f)
                &&& old(self).source_path matches Some(sp)
                &&& f.cleanup.remove_source matches Some(rs)
                &&& rs@ == sp@
                &&& f.cleanup.remove_binary is None
                &&& f.cleanup.release_lock
                &&& f.outcome matches Outcome::Reject(m)
                &&& m@ == spec_compile_failed_msg(stderr@)
            }),
            ran && success ==> ({
                &&& final(self).phase is Running
                &&& final(self).exec_issued
                &&& step matches Step::Execute { path }
                &&& path@ == spec_binary_path(old(self).out_dir@, views(old(self).args@))
                &&& final(self).binary_path matches Some(bp)
                &&& bp@ == path@
            }),
            final(self).exec_issued == (old(self).exec_issued || (ran && success)),
    {
        let source = match &self.source_path {
            Some(p) => p.clone(),
            None => {
                proof {
                    assert(false);
                }
                String::new()
            },
        };
        if !ran {
            self.phase = Phase::Done;
            return Step::Finish(
                Finish {
                    cleanup: Cleanup {
                        remove_source: Some(source),
                        remove_binary: None,
                        release_lock: true,
                    },
                    outcome: Outcome::Fatal("could not invoke rustc".to_owned()),
                },
            );
        }
        if !success {
            self.phase = Phase::Done;
            return Step::Finish(
                Finish {
                    cleanup: Cleanup {
                        remove_source: Some(source),
                        remove_binary: None,
                        release_lock: true,
                    },
                    outcome: Outcome::Reject(compile_failed_msg(stderr)),
                },
            );
        }
        let path = binary_path_of(self.out_dir.as_str(), &self.args);
        self.binary_path = Some(path.clone());
        self.exec_issued = true;
        self.phase = Phase::Running;
        Step::Execute { path }
    }

    /// Takes the auxiliary program's outcome and ends the invocation.
    /// Whatever happened, the staged source and the produced executable
    /// are deleted best-effort and the lock is released. A program that
    /// could not be spawned is an infrastructure error; a nonzero exit
    /// surfaces the captured error stream verbatim; output that is not
    /// valid text gets its own distinct diagnostic. Otherwise the
    /// captured output is spliced into the replacement expression that
    /// deserializes it at the host program's runtime.
    pub fn on_executed(
        &mut self,
        ran: bool,
        success: bool,
        output: Option<String>,
        stderr: &str,
    ) -> (f: Finish)
        requires
            old(self).phase is Running,
            old(self).wf(),
        ensures
            final(self).wf(),
            final(self).phase is Done,
            final(self).ty == old(self).ty,
            old(self).source_path matches Some(sp) && f.cleanup.remove_source matches Some(rs)
                && rs@ == sp@,
            old(self).binary_path matches Some(bp) && f.cleanup.remove_binary matches Some(rb)
                && rb@ == bp@,
            f.cleanup.release_lock,
            !ran ==> ({
                &&& f.outcome matches Outcome::Fatal(m)
                &&& m@ == "could not invoke edg_bin"@
            }),
            ran && !success ==> ({
                &&& f.outcome matches Outcome::Reject(m)
                &&& m@ == spec_run_failed_msg(stderr@)
            }),
            ran && success && output is None ==> ({
                &&& f.outcome matches Outcome::Reject(m)
                &&& m@ == spec_not_utf8_msg()
            }),
            ran && success && output is Some ==> ({
                &&& output matches Some(cap)
                &&& f.outcome matches Outcome::Splice(e)
                &&& old(self).ty matches Some(t)
                &&& e@ == spec_splice_expr(t@, cap@)
            }),
    {
        let source = match &self.source_path {
            Some(p) => p.clone(),
            None => {
                proof {
                    assert(false);
                }
                String::new()
            },
        };
        let binary = match &self.binary_path {
            Some(p) => p.clone(),
            None => {
                proof {
                    assert(false);
                }
                String::new()
            },
        };
        let ty = match &self.ty {
            Some(t) => t.clone(),
            None => {
                proof {
                    assert(false);
                }
                String::new()
            },
        };
        self.phase = Phase::Done;
        let cleanup = Cleanup {
            remove_source: Some(source),
            remove_binary: Some(binary),
            release_lock: true,
        };
        if !ran {
            return Finish {
                cleanup,
                outcome: Outcome::Fatal("could not invoke edg_bin".to_owned()),
            };
        }
        if !success {
            return Finish { cleanup, outcome: Outcome::Reject(run_failed_msg(stderr)) };
        }
        match output {
            None => Finish {
                cleanup,
                outcome: Outcome::Reject("comptime expr output was not utf8".to_owned()),
            },
            Some(cap) => Finish {
                cleanup,
                outcome: Outcome::Splice(splice_expr(ty.as_str(), cap.as_str())),
            },
        }
    }
}

/// Determinism of staging and splicing: two invocations over the same
/// scratch directory with equal declared types and equal body texts
/// stage at the same path, and two equal captured outputs for the same
/// declared type splice to the same replacement expression.
pub proof fn lemma_pipeline_deterministic(
    out_dir: Seq<char>,
    ty1: Seq<char>,
    ty2: Seq<char>,
    body1: Seq<char>,
    body2: Seq<char>,
    cap1: Seq<char>,
    cap2: Seq<char>,
)
    requires
        ty1 == ty2,
        body1 == body2,
        cap1 == cap2,
    ensures
        spec_staged_path(out_dir, ty1, body1) == spec_staged_path(out_dir, ty2, body2),
        spec_splice_expr(ty1, cap1) == spec_splice_expr(ty2, cap2),
{
}

} // verus!
