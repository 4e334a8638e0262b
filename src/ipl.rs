//! Transfer of the boot artifacts to the guest's virtual reader, and the boot
//! trigger, as a state machine: the caller performs each action that
//! [`Transfer::action`] names and reports the outcome to [`Transfer::advance`].
use vstd::prelude::*;
use crate::config::{Config, ConfigError, InstallTarget};
use crate::images::{source_path_of, LiveImages};
use crate::parm::{parm, parm_tokens};
use crate::text::{contains, find, join, join_tokens, views};

verus! {

/// Where a transfer stands. The numbered stages act on one of the three
/// reader/punch devices, by index.
#[derive(Debug, Clone, Copy, PartialEq, Eq, Structural)]
pub enum Stage {
    /// Load the reader/punch driver.
    LoadModule,
    /// Ask whether the device is on the ignore list.
    CheckIgnored(usize),
    /// Take the device off the ignore list.
    Unignore(usize),
    /// Bring the device online.
    Online(usize),
    /// Clear the guest's reader by spooling the punch to it.
    SpoolClear,
    /// Purge every file of the guest's reader.
    PurgeAll,
    /// Write the parameter line to the parameter file.
    WriteParm,
    PunchKernel,
    PunchParm,
    PunchInitrd,
    /// Start the guest.
    Boot,
    /// Everything went through.
    Done,
    /// Everything but the boot trigger went through; the operator boots the guest.
    ManualBoot,
    /// A step failed; nothing more is done.
    Failed,
}

/// The step that failed and why.
#[derive(Debug, Clone, PartialEq, Eq)]
pub struct TransferError {
    /// The command (or file write) that failed, its words separated by spaces.
    pub operation: String,
    /// What its runner reported.
    pub cause: String,
}

/// What the runner reports of the last action.
pub enum Event {
    /// It succeeded.
    Succeeded,
    /// A query succeeded and printed this.
    Output(String),
    /// It failed, for this reason.
    Failed(String),
}

/// What the runner is to do next.
pub enum Action {
    /// Run the program `words[0]` with the other words as arguments; report
    /// success or failure.
    Run(Vec<String>),
    /// Run as above and report what it printed.
    Query(Vec<String>),
    /// Write `contents` into the file `name` of the working directory.
    WriteFile { name: String, contents: String },
    /// The transfer is complete; a warning, if any, is for the operator.
    Finish { warning: Option<String> },
    /// The transfer is abandoned.
    Abort(TransferError),
}

/// One transfer of a kernel, a parameter line and an initrd to a guest.
pub struct Transfer {
    /// The guest's user id.
    pub zvm: String,
    /// File holding the kernel.
    pub kernel: String,
    /// File holding the initrd.
    pub initrd: String,
    /// The parameter line.
    pub parm: String,
    pub stage: Stage,
    /// Set exactly when the stage is `Failed`.
    pub error: Option<TransferError>,
}

/// The reader/punch device of an index.
pub open spec fn device(i: int) -> Seq<char> {
    if i == 0 {
        "c"@
    } else if i == 1 {
        "d"@
    } else {
        "e"@
    }
}

/// Name of the parameter file in the working directory.
pub open spec fn parm_file() -> Seq<char> {
    "cmdline"@
}

/// The punch command for one file under the label the installer expects.
pub open spec fn punch_words(zvm: Seq<char>, label: Seq<char>, file: Seq<char>) -> Seq<Seq<char>> {
    seq!["vmur"@, "punch"@, "-r"@, "-u"@, zvm, "-N"@, label, file]
}

/// The two commands that empty a guest's reader: spool the punch to it, then
/// purge all of it.
pub open spec fn clear_words(zvm: Seq<char>) -> Seq<Seq<Seq<char>>> {
    seq![seq!["vmcp"@, "sp"@, "pun"@, zvm, "rdr"@], seq!["vmcp"@, "pur"@, zvm, "rdr"@, "all"@]]
}

/// The words of what a stage does: a command, or for `WriteParm` the file
/// written. Terminal stages do nothing.
pub open spec fn stage_words(t: Transfer, s: Stage) -> Seq<Seq<char>> {
    match s {
        Stage::LoadModule => seq!["modprobe"@, "vmur"@],
        Stage::CheckIgnored(i) => seq!["cio_ignore"@, "--is-ignored"@, device(i as int)],
        Stage::Unignore(i) => seq!["cio_ignore"@, "--remove"@, device(i as int)],
        Stage::Online(i) => seq!["chccwdev"@, "--online"@, device(i as int)],
        Stage::SpoolClear => clear_words(t.zvm@)[0],
        Stage::PurgeAll => clear_words(t.zvm@)[1],
        Stage::WriteParm => seq!["write"@, parm_file()],
        Stage::PunchKernel => punch_words(t.zvm@, "coreos.kernel"@, t.kernel@),
        Stage::PunchParm => punch_words(t.zvm@, "coreos.parm"@, parm_file()),
        Stage::PunchInitrd => punch_words(t.zvm@, "coreos.initrd"@, t.initrd@),
        Stage::Boot => seq!["vmcp"@, "send"@, "cp"@, t.zvm@, "ipl"@, "c"@],
        _ => Seq::empty(),
    }
}

/// What the runner printed says the device is ignored.
pub open spec fn says_ignored(out: Seq<char>) -> bool {
    contains(out, "is ignored"@)
}

/// The stage after `s` once the runner reported `e`. Device setup, reader
/// clearing, the parameter file and the punches stop the transfer on
/// failure; a failed boot trigger leaves the boot to the operator.
pub open spec fn next_stage(s: Stage, e: Event) -> Stage {
    if s is Done || s is ManualBoot || s is Failed {
        s
    } else if e is Failed {
        if s is Boot {
            Stage::ManualBoot
        } else {
            Stage::Failed
        }
    } else {
        match s {
            Stage::LoadModule => Stage::CheckIgnored(0),
            Stage::CheckIgnored(i) => if e matches Event::Output(o) && says_ignored(o@) {
                Stage::Unignore(i)
            } else {
                Stage::Online(i)
            },
            Stage::Unignore(i) => Stage::Online(i),
            Stage::Online(i) => if i < 2 {
                Stage::CheckIgnored((i + 1) as usize)
            } else {
                Stage::SpoolClear
            },
            Stage::SpoolClear => Stage::PurgeAll,
            Stage::PurgeAll => Stage::WriteParm,
            Stage::WriteParm => Stage::PunchKernel,
            Stage::PunchKernel => Stage::PunchParm,
            Stage::PunchParm => Stage::PunchInitrd,
            Stage::PunchInitrd => Stage::Boot,
            _ => Stage::Done,
        }
    }
}

/// The message left for the operator when the boot trigger failed.
pub open spec fn manual_boot_message() -> Seq<char> {
    "Please login to zVM and IPL manually: '#cp ipl c'"@
}

/// The two commands that empty the reader of the guest `zvm`, in order.
pub fn clear(zvm: &str) -> (r: Vec<Vec<String>>)
    ensures
        r@.len() == 2,
        views(r@[0]@) == clear_words(zvm@)[0],
        views(r@[1]@) == clear_words(zvm@)[1],
{
    let spool = vec![
        String::from_str("vmcp"),
        String::from_str("sp"),
        String::from_str("pun"),
        String::from_str(zvm),
        String::from_str("rdr"),
    ];
    let purge = vec![
        String::from_str("vmcp"),
        String::from_str("pur"),
        String::from_str(zvm),
        String::from_str("rdr"),
        String::from_str("all"),
    ];
    assert(views(spool@) =~= clear_words(zvm@)[0]);
    assert(views(purge@) =~= clear_words(zvm@)[1]);
    vec![spool, purge]
}

/// The command that punches `file` to the reader of the guest `zvm` under
/// the name `target`.
pub fn punch(zvm: &str, target: &str, file: &str) -> (r: Vec<String>)
    ensures
        views(r@) == punch_words(zvm@, target@, file@),
{
    let v = vec![
        String::from_str("vmur"),
        String::from_str("punch"),
        String::from_str("-r"),
        String::from_str("-u"),
        String::from_str(zvm),
        String::from_str("-N"),
        String::from_str(target),
        String::from_str(file),
    ];
    assert(views(v@) =~= punch_words(zvm@, target@, file@));
    v
}

impl Transfer {
    /// Device indexes are in range, and the error is there exactly when the
    /// transfer failed.
    pub open spec fn wf(&self) -> bool {
        &&& match self.stage {
            Stage::CheckIgnored(i) => i < 3,
            Stage::Unignore(i) => i < 3,
            Stage::Online(i) => i < 3,
            _ => true,
        }
        &&& (self.error is Some <==> self.stage is Failed)
    }

    /// A transfer at its first stage.
    pub fn new(zvm: String, kernel: String, initrd: String, parm: String) -> (r: Transfer)
        ensures
            r.wf(),
            r.stage == Stage::LoadModule,
            r.zvm@ == zvm@ && r.kernel@ == kernel@ && r.initrd@ == initrd@ && r.parm@ == parm@,
    {
        Transfer { zvm, kernel, initrd, parm, stage: Stage::LoadModule, error: None }
    }

    /// The transfer for a run: the kernel and initrd read from where they
    /// were fetched to, and the run's parameter line. Fails as the parameter
    /// line does.
    pub fn prepare(cfg: &Config, images: &LiveImages) -> (r: Result<Transfer, ConfigError>)
        ensures
            r is Ok <==> cfg.target.target_path() is Some,
            r is Ok ==> {
                let t = r->Ok_0;
                &&& t.wf()
                &&& t.stage == Stage::LoadModule
                &&& t.zvm@ == cfg.zvm.zvm@
                &&& t.kernel@ == source_path_of(images@.kernel)
                &&& t.initrd@ == source_path_of(images@.initrd)
                &&& t.parm@ == join_tokens(parm_tokens(*cfg, images@.rootfs.url)->Some_0)
            },
    {
        let line = parm(cfg, images)?;
        Ok(
            Transfer::new(
                String::from_str(cfg.zvm.zvm.as_str()),
                images.live_kernel.source_path(),
                images.live_initrd.source_path(),
                line,
            ),
        )
    }

    fn device(i: usize) -> (r: String)
        requires
            i < 3,
        ensures
            r@ == device(i as int),
    {
        if i == 0 {
            String::from_str("c")
        } else if i == 1 {
            String::from_str("d")
        } else {
            String::from_str("e")
        }
    }

    /// The words of what the current stage does.
    pub fn stage_words(&self) -> (r: Vec<String>)
        requires
            self.wf(),
        ensures
            views(r@) == stage_words(*self, self.stage),
    {
        let v: Vec<String> = match self.stage {
            Stage::LoadModule => vec![String::from_str("modprobe"), String::from_str("vmur")],
            Stage::CheckIgnored(i) => vec![
                String::from_str("cio_ignore"),
                String::from_str("--is-ignored"),
                Transfer::device(i),
            ],
            Stage::Unignore(i) => vec![
                String::from_str("cio_ignore"),
                String::from_str("--remove"),
                Transfer::device(i),
            ],
            Stage::Online(i) => vec![
                String::from_str("chccwdev"),
                String::from_str("--online"),
                Transfer::device(i),
            ],
            Stage::SpoolClear => {
                let mut c = clear(self.zvm.as_str());
                c.remove(0)
            },
            Stage::PurgeAll => {
                let mut c = clear(self.zvm.as_str());
                c.remove(1)
            },
            Stage::WriteParm => vec![String::from_str("write"), String::from_str("cmdline")],
            Stage::PunchKernel => punch(self.zvm.as_str(), "coreos.kernel", self.kernel.as_str()),
            Stage::PunchParm => punch(self.zvm.as_str(), "coreos.parm", "cmdline"),
            Stage::PunchInitrd => punch(self.zvm.as_str(), "coreos.initrd", self.initrd.as_str()),
            Stage::Boot => vec![
                String::from_str("vmcp"),
                String::from_str("send"),
                String::from_str("cp"),
                String::from_str(self.zvm.as_str()),
                String::from_str("ipl"),
                String::from_str("c"),
            ],
            _ => Vec::new(),
        };
        assert(views(v@) =~= stage_words(*self, self.stage));
        v
    }

    /// The action of the current stage: a query for the ignore-list check;
    /// the parameter file write; a finish, with the operator's instruction
    /// after a failed boot trigger; the error after a failure; else the
    /// stage's command.
    pub fn action(&self) -> (r: Action)
        requires
            self.wf(),
        ensures
            action_of(*self, r),
    {
        match self.stage {
            Stage::CheckIgnored(_) => Action::Query(self.stage_words()),
            Stage::WriteParm => Action::WriteFile {
                name: String::from_str("cmdline"),
                contents: String::from_str(self.parm.as_str()),
            },
            Stage::Done => Action::Finish { warning: None },
            Stage::ManualBoot => Action::Finish {
                warning: Some(String::from_str("Please login to zVM and IPL manually: '#cp ipl c'")),
            },
            Stage::Failed => match &self.error {
                Some(e) => Action::Abort(
                    TransferError {
                        operation: String::from_str(e.operation.as_str()),
                        cause: String::from_str(e.cause.as_str()),
                    },
                ),
                None => Action::Finish { warning: None },
            },
            _ => Action::Run(self.stage_words()),
        }
    }

    /// Moves on by what the runner reported of the current action. A failure
    /// records the failed step's words and the cause.
    pub fn advance(&mut self, event: Event)
        requires
            old(self).wf(),
        ensures
            final(self).wf(),
            final(self).stage == next_stage(old(self).stage, event),
            final(self).zvm@ == old(self).zvm@,
            final(self).kernel@ == old(self).kernel@,
            final(self).initrd@ == old(self).initrd@,
            final(self).parm@ == old(self).parm@,
            old(self).stage is Failed ==> final(self).error == old(self).error,
            !(old(self).stage is Failed) && final(self).stage is Failed ==> ({
                let e = final(self).error->Some_0;
                &&& e.operation@ == join_tokens(stage_words(*old(self), old(self).stage))
                &&& event matches Event::Failed(c) && e.cause@ == c@
            }),
    {
        match self.stage {
            Stage::Done | Stage::ManualBoot | Stage::Failed => {
                return ;
            },
            _ => {},
        }
        let next = match &event {
            Event::Failed(cause) => {
                if self.stage == Stage::Boot {
                    Stage::ManualBoot
                } else {
                    let words = self.stage_words();
                    self.error = Some(
                        TransferError {
                            operation: join(&words),
                            cause: String::from_str(cause.as_str()),
                        },
                    );
                    Stage::Failed
                }
            },
            _ => match self.stage {
                Stage::LoadModule => Stage::CheckIgnored(0),
                Stage::CheckIgnored(i) => {
                    let ignored = match &event {
                        Event::Output(o) => find(o.as_str(), "is ignored"),
                        _ => false,
                    };
                    if ignored {
                        Stage::Unignore(i)
                    } else {
                        Stage::Online(i)
                    }
                },
                Stage::Unignore(i) => Stage::Online(i),
                Stage::Online(i) => if i < 2 {
                    Stage::CheckIgnored(i + 1)
                } else {
                    Stage::SpoolClear
                },
                Stage::SpoolClear => Stage::PurgeAll,
                Stage::PurgeAll => Stage::WriteParm,
                Stage::WriteParm => Stage::PunchKernel,
                Stage::PunchKernel => Stage::PunchParm,
                Stage::PunchParm => Stage::PunchInitrd,
                Stage::PunchInitrd => Stage::Boot,
                _ => Stage::Done,
            },
        };
        self.stage = next;
    }
}

/// What [`Transfer::action`] gives in each stage.
pub open spec fn action_of(t: Transfer, a: Action) -> bool {
    match t.stage {
        Stage::CheckIgnored(_) => a matches Action::Query(w) && views(w@) == stage_words(t, t.stage),
        Stage::WriteParm => a matches Action::WriteFile { name, contents } && name@ == parm_file()
            && contents@ == t.parm@,
        Stage::Done => a matches Action::Finish { warning } && warning is None,
        Stage::ManualBoot => a matches Action::Finish { warning } && warning is Some
            && warning->Some_0@ == manual_boot_message(),
        Stage::Failed => a matches Action::Abort(e) && e.operation@ == t.error->Some_0.operation@
            && e.cause@ == t.error->Some_0.cause@,
        _ => a matches Action::Run(w) && views(w@) == stage_words(t, t.stage),
    }
}

/// Position of a stage in the fixed order of a transfer.
pub open spec fn rank(s: Stage) -> int {
    match s {
        Stage::LoadModule => 0,
        Stage::CheckIgnored(i) => 1 + 3 * i,
        Stage::Unignore(i) => 2 + 3 * i,
        Stage::Online(i) => 3 + 3 * i,
        Stage::SpoolClear => 10,
        Stage::PurgeAll => 11,
        Stage::WriteParm => 12,
        Stage::PunchKernel => 13,
        Stage::PunchParm => 14,
        Stage::PunchInitrd => 15,
        Stage::Boot => 16,
        Stage::Done => 17,
        Stage::ManualBoot => 17,
        Stage::Failed => 18,
    }
}

/// A transfer only moves forward: the device setup, the double clear, the
/// parameter file, the kernel, parameter and initrd punches and the boot
/// trigger come in that order. A failure of any step but the boot trigger
/// stops the transfer at once, so no later punch or boot is attempted; a
/// failed boot trigger still completes it, leaving the boot to the operator.
pub proof fn lemma_transfer_order(t: Transfer, e: Event)
    requires
        t.wf(),
        !(t.stage is Done || t.stage is ManualBoot || t.stage is Failed),
    ensures
        rank(next_stage(t.stage, e)) > rank(t.stage),
        rank(Stage::SpoolClear) < rank(Stage::PurgeAll) < rank(Stage::PunchKernel) < rank(
            Stage::PunchParm,
        ) < rank(Stage::PunchInitrd) < rank(Stage::Boot),
        e is Failed && !(t.stage is Boot) ==> next_stage(t.stage, e) == Stage::Failed,
        e is Failed && t.stage is Boot ==> next_stage(t.stage, e) == Stage::ManualBoot,
        !(e is Failed) && t.stage is Boot ==> next_stage(t.stage, e) == Stage::Done,
{
}

/// Once finished, failed or not, a transfer stays where it is.
pub proof fn lemma_transfer_end_is_final(s: Stage, e: Event)
    requires
        s is Done || s is ManualBoot || s is Failed,
    ensures
        next_stage(s, e) == s,
{
}

} // verus!
