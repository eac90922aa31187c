//! What each endpoint decides: from a decoded request to the work to be done,
//! and from the outcome of that work to the reply.
//!
//! The caller decodes the body, performs the work on the host and hands the
//! outcome back; nothing here touches the host.

use crate::permissions::{check_permissions, status_of};
use crate::reply::{
    bad_request, bad_request_reply, internal_error, internal_error_reply, plain, reply_of,
    text_reply, texts_of, unavailable, unavailable_reply, with_body, AutopilotActResponse,
    AutopilotCaptureResponse, Body, BodyView, ComputerResponse, Reply, ReplyView, ShellResponse,
};
use crate::text::{decimal, decimal_text, decimal_value, lemma_decimal_round_trip};
use vstd::prelude::*;
use vstd::string::*;

verus! {

/// One action on pointer, keyboard or screen. `action` names the kind; of the
/// other fields only those that the kind reads are meaningful.
pub struct ComputerAction {
    pub action: String,
    pub coordinate: Option<[i32; 2]>,
    pub start_coordinate: Option<[i32; 2]>,
    pub text: Option<String>,
    pub scroll_direction: Option<String>,
    pub scroll_amount: Option<i32>,
    pub key: Option<String>,
    pub region: Option<[i32; 4]>,
}

/// A batch of actions, to be performed in order.
pub struct ComputerRequest {
    pub actions: Vec<ComputerAction>,
}

/// A shell command.
pub struct ShellRequest {
    pub command: String,
}

/// A request for a still image of the screen.
pub struct AutopilotCaptureRequest {
    pub max_width: Option<u32>,
    pub quality: Option<u8>,
}

/// One action whose coordinates refer to an image of the given size.
pub struct AutopilotActRequest<A> {
    pub action: A,
    pub image_width: u32,
    pub image_height: u32,
}

/// The capture to make: the largest width of the image and its quality.
pub struct CaptureOrder {
    pub max_width: u32,
    pub quality: u8,
}

/// A capture as the host made it.
pub struct CaptureResult {
    pub image_base64: String,
    pub width: u32,
    pub height: u32,
    pub screen_width: u32,
    pub screen_height: u32,
}

/// How the execution of one autopilot action ended.
pub enum ActOutcome {
    /// The action was performed; the text summarises it.
    Done(String),
    /// The action failed; the text says why.
    Failed(String),
    /// The work ended abnormally where it was dispatched to.
    Panicked,
    /// The host has no executor.
    Unavailable,
}

/// What is to happen next with a request: a reply is ready, or work is to be
/// done on the host first.
pub enum Step<W> {
    Respond(Reply),
    Run(W),
}

/// The width asked of a capture where the request names none.
pub const DEFAULT_MAX_WIDTH: u32 = 1280;

/// The quality asked of a capture where the request names none.
pub const DEFAULT_QUALITY: u8 = 60;

/// The summary of a batch of `n` actions: the count and a fixed word.
pub open spec fn summary_text(n: nat) -> Seq<char> {
    decimal_text(n) + " действий"@
}

/// The result recorded for one action: the text it gave, nothing where it gave
/// none, or the error behind a fixed prefix.
pub open spec fn outcome_text(outcome: Result<Option<String>, String>) -> Seq<char> {
    match outcome {
        Ok(Some(s)) => s@,
        Ok(None) => Seq::empty(),
        Err(e) => "ошибка: "@ + e@,
    }
}

/// The reply that reports a batch.
pub open spec fn batch_reply(n: nat, results: Seq<Seq<char>>) -> ReplyView {
    reply_of(200, BodyView::Computer { summary: summary_text(n), results })
}

/// The reply that carries the output of a shell command.
pub open spec fn shell_output_reply(output: Seq<char>) -> ReplyView {
    reply_of(200, BodyView::Shell { output })
}

/// The reply for a shell command that ran, or could not be run.
pub open spec fn shell_reply_of(outcome: Result<String, String>) -> ReplyView {
    match outcome {
        Ok(out) => shell_output_reply(out@),
        Err(e) => text_reply(500, e@),
    }
}

/// The reply to an action that was performed: the status `ok` and the
/// summary, whatever characters the summary holds.
pub open spec fn act_done_reply(summary: Seq<char>) -> ReplyView {
    reply_of(200, BodyView::Act { status: "ok"@, summary })
}

/// The reply for each way in which an autopilot action can end.
pub open spec fn act_reply_of(outcome: ActOutcome) -> ReplyView {
    match outcome {
        ActOutcome::Done(summary) => act_done_reply(summary@),
        ActOutcome::Failed(err) => text_reply(500, err@),
        ActOutcome::Panicked => internal_error_reply(),
        ActOutcome::Unavailable => unavailable_reply(),
    }
}

/// The reply for a capture that was made or failed.
pub open spec fn capture_reply_of(outcome: Result<CaptureResult, String>) -> ReplyView {
    match outcome {
        Ok(c) => reply_of(
            200,
            BodyView::Capture {
                image_base64: c.image_base64@,
                width: c.width,
                height: c.height,
                screen_width: c.screen_width,
                screen_height: c.screen_height,
                format: "jpeg"@,
            },
        ),
        Err(e) => text_reply(500, e@),
    }
}

/// The reply to a batch of `n` actions holds `n` results, and its summary
/// begins with the numeral of `n` and nothing else before the fixed word.
pub proof fn lemma_batch_reply_counts(n: nat, results: Seq<Seq<char>>)
    requires
        results.len() == n,
    ensures
        batch_reply(n, results).status == 200,
        batch_reply(n, results).body matches BodyView::Computer { summary, results: listed }
            && listed.len() == n && summary == decimal_text(n) + " действий"@ && decimal_value(
            summary.take(decimal_text(n).len() as int),
        ) == n,
{
    lemma_decimal_round_trip(n);
    let summary = summary_text(n);
    assert(summary.take(decimal_text(n).len() as int) =~= decimal_text(n));
}

/// Whether `step` is the reply `reply` and no work.
pub open spec fn responds<W>(step: Step<W>, reply: ReplyView) -> bool {
    step matches Step::Respond(r) && r@ == reply
}

fn summary(n: usize) -> (r: String)
    ensures
        r@ == summary_text(n as nat),
{
    decimal(n as u64).concat(" действий")
}

/// Previews a batch: replies with the number of actions and no results.
/// A body that could not be decoded (`None`) is a bad request.
pub fn handle_computer_preview(parsed: Option<ComputerRequest>) -> (r: Reply)
    ensures
        r@ == match parsed {
            Some(req) => batch_reply(req.actions@.len(), Seq::empty()),
            None => bad_request_reply(),
        },
{
    match parsed {
        Some(req) => {
            let resp = ComputerResponse { summary: summary(req.actions.len()), results: Vec::new() };
            assert(texts_of(resp.results@) =~= Seq::empty());
            with_body(200, Body::Computer(resp))
        },
        None => bad_request(),
    }
}

/// Previews a shell command: replies with the command itself.
/// A body that could not be decoded (`None`) is a bad request.
pub fn handle_shell_preview(parsed: Option<ShellRequest>) -> (r: Reply)
    ensures
        r@ == match parsed {
            Some(req) => shell_output_reply(req.command@),
            None => bad_request_reply(),
        },
{
    match parsed {
        Some(req) => with_body(200, Body::Shell(ShellResponse { output: req.command })),
        None => bad_request(),
    }
}

/// A batch in execution: its actions, and the results recorded so far, one
/// for each action already performed, in order.
pub struct Batch {
    actions: Vec<ComputerAction>,
    results: Vec<String>,
}

impl Batch {
    /// The actions of the batch, in the order in which they were submitted.
    pub closed spec fn actions(&self) -> Seq<ComputerAction> {
        self.actions@
    }

    /// The results recorded so far.
    pub closed spec fn recorded(&self) -> Seq<Seq<char>> {
        texts_of(self.results@)
    }

    /// No more results than actions are recorded.
    #[verifier::type_invariant]
    spec fn within(&self) -> bool {
        self.results@.len() <= self.actions@.len()
    }

    /// Every action has its result.
    pub open spec fn is_done(&self) -> bool {
        self.recorded().len() == self.actions().len()
    }

    /// A batch of the given actions, none of them performed yet.
    pub fn new(actions: Vec<ComputerAction>) -> (b: Batch)
        ensures
            b.actions() == actions@,
            b.recorded() == Seq::<Seq<char>>::empty(),
    {
        let b = Batch { actions, results: Vec::new() };
        assert(b.recorded() =~= Seq::<Seq<char>>::empty());
        b
    }

    /// The number of actions in the batch.
    pub fn len(&self) -> (n: usize)
        ensures
            n == self.actions().len(),
    {
        self.actions.len()
    }

    /// The number of results recorded so far.
    pub fn recorded_len(&self) -> (n: usize)
        ensures
            n == self.recorded().len(),
    {
        self.results.len()
    }

    /// The action to perform next: the first one without a result, or `None`
    /// where every action has one.
    pub fn pending(&self) -> (r: Option<&ComputerAction>)
        ensures
            match r {
                Some(a) => !self.is_done() && *a == self.actions()[self.recorded().len() as int],
                None => self.is_done(),
            },
    {
        proof {
            use_type_invariant(self);
        }
        let k: usize = self.results.len();
        if k < self.actions.len() {
            Some(&self.actions[k])
        } else {
            None
        }
    }

    /// Records the outcome of the pending action. The actions stay as they
    /// are, and the result is appended to those recorded before.
    pub fn record(self, outcome: Result<Option<String>, String>) -> (b: Batch)
        requires
            !self.is_done(),
        ensures
            b.actions() == self.actions(),
            b.recorded() == self.recorded().push(outcome_text(outcome)),
    {
        proof {
            use_type_invariant(&self);
        }
        let Batch { actions, mut results } = self;
        results.push(action_result_text(outcome));
        let b = Batch { actions, results };
        assert(b.recorded() =~= self.recorded().push(outcome_text(outcome)));
        b
    }

    /// The reply to a batch that was performed to its end: status 200, the
    /// number of actions in the summary and one result for each action, in order.
    pub fn finish(self) -> (r: Reply)
        requires
            self.is_done(),
        ensures
            r@ == batch_reply(self.actions().len(), self.recorded()),
            r@.body matches BodyView::Computer { results, .. } && results.len()
                == self.actions().len(),
    {
        let resp = ComputerResponse { summary: summary(self.actions.len()), results: self.results };
        with_body(200, Body::Computer(resp))
    }

    /// The reply where the host could not ready its controls: no action is
    /// performed, and the capability is reported as not to be had.
    pub fn abandon(self) -> (r: Reply)
        ensures
            r@ == unavailable_reply(),
    {
        unavailable()
    }
}

/// The text recorded for the outcome of one action.
pub fn action_result_text(outcome: Result<Option<String>, String>) -> (r: String)
    ensures
        r@ == outcome_text(outcome),
{
    match outcome {
        Ok(Some(s)) => s,
        Ok(None) => String::new(),
        Err(e) => String::from_str("ошибка: ").concat(e.as_str()),
    }
}

/// Admits a batch for execution. A body that could not be decoded is a bad
/// request, and a host without automation is reported as such; in both cases
/// there is no batch and so no action to perform.
pub fn handle_computer_execute(parsed: Option<ComputerRequest>, skills: bool) -> (r: Step<Batch>)
    ensures
        match parsed {
            None => responds(r, bad_request_reply()),
            Some(req) => if skills {
                r matches Step::Run(b) && b.actions() == req.actions@ && b.recorded()
                    == Seq::<Seq<char>>::empty()
            } else {
                responds(r, unavailable_reply())
            },
        },
{
    match parsed {
        None => Step::Respond(bad_request()),
        Some(req) => {
            if skills {
                Step::Run(Batch::new(req.actions))
            } else {
                Step::Respond(unavailable())
            }
        },
    }
}

/// Admits a shell command for execution, as `handle_computer_execute` admits a batch.
pub fn handle_shell_execute(parsed: Option<ShellRequest>, skills: bool) -> (r: Step<ShellRequest>)
    ensures
        match parsed {
            None => responds(r, bad_request_reply()),
            Some(req) => if skills {
                r == Step::Run(req)
            } else {
                responds(r, unavailable_reply())
            },
        },
{
    match parsed {
        None => Step::Respond(bad_request()),
        Some(req) => {
            if skills {
                Step::Run(req)
            } else {
                Step::Respond(unavailable())
            }
        },
    }
}

/// The reply to a shell command: its output with status 200, or, where the
/// command could not be run, status 500 with the error as the body.
pub fn shell_reply(outcome: Result<String, String>) -> (r: Reply)
    ensures
        r@ == shell_reply_of(outcome),
{
    match outcome {
        Ok(out) => with_body(200, Body::Shell(ShellResponse { output: out })),
        Err(e) => plain(500, e.as_str()),
    }
}

/// Admits a capture, filling in the default width and quality where the
/// request names none.
pub fn handle_autopilot_capture(parsed: Option<AutopilotCaptureRequest>, skills: bool) -> (r: Step<
    CaptureOrder,
>)
    ensures
        match parsed {
            None => responds(r, bad_request_reply()),
            Some(req) => if skills {
                r matches Step::Run(order) && order.max_width == (match req.max_width {
                    Some(w) => w,
                    None => DEFAULT_MAX_WIDTH,
                }) && order.quality == (match req.quality {
                    Some(q) => q,
                    None => DEFAULT_QUALITY,
                })
            } else {
                responds(r, unavailable_reply())
            },
        },
{
    match parsed {
        None => Step::Respond(bad_request()),
        Some(req) => {
            if skills {
                let max_width: u32 = match req.max_width {
                    Some(w) => w,
                    None => DEFAULT_MAX_WIDTH,
                };
                let quality: u8 = match req.quality {
                    Some(q) => q,
                    None => DEFAULT_QUALITY,
                };
                Step::Run(CaptureOrder { max_width, quality })
            } else {
                Step::Respond(unavailable())
            }
        },
    }
}

/// The reply to a capture: the image with its sizes and the format `jpeg`, or
/// status 500 with the error.
pub fn capture_reply(outcome: Result<CaptureResult, String>) -> (r: Reply)
    ensures
        r@ == capture_reply_of(outcome),
{
    match outcome {
        Ok(c) => with_body(
            200,
            Body::Capture(
                AutopilotCaptureResponse {
                    image_base64: c.image_base64,
                    width: c.width,
                    height: c.height,
                    screen_width: c.screen_width,
                    screen_height: c.screen_height,
                    format: String::from_str("jpeg"),
                },
            ),
        ),
        Err(e) => plain(500, e.as_str()),
    }
}

/// Admits an autopilot action, as `handle_computer_execute` admits a batch.
pub fn handle_autopilot_act<A>(parsed: Option<AutopilotActRequest<A>>, skills: bool) -> (r: Step<
    AutopilotActRequest<A>,
>)
    ensures
        match parsed {
            None => responds(r, bad_request_reply()),
            Some(req) => if skills {
                r == Step::Run(req)
            } else {
                responds(r, unavailable_reply())
            },
        },
{
    match parsed {
        None => Step::Respond(bad_request()),
        Some(req) => {
            if skills {
                Step::Run(req)
            } else {
                Step::Respond(unavailable())
            }
        },
    }
}

/// The reply to an autopilot action: status 200 with the status `ok` and the
/// summary, status 500 with the error, status 500 with a fixed text after an
/// abnormal end, or that the capability is not to be had.
pub fn act_reply(outcome: ActOutcome) -> (r: Reply)
    ensures
        r@ == act_reply_of(outcome),
{
    match outcome {
        ActOutcome::Done(summary) => with_body(
            200,
            Body::Act(AutopilotActResponse { status: String::from_str("ok"), summary }),
        ),
        ActOutcome::Failed(err) => plain(500, err.as_str()),
        ActOutcome::Panicked => internal_error(),
        ActOutcome::Unavailable => unavailable(),
    }
}

/// The reply to a request for the permissions: the status composed from the
/// two probes, or, on a host without automation (`None`), that the capability
/// is not to be had.
pub fn handle_autopilot_permissions(probes: Option<(bool, bool)>) -> (r: Reply)
    ensures
        r@ == match probes {
            Some((screen_recording_ok, accessibility_ok)) => reply_of(
                200,
                BodyView::Permissions(status_of(screen_recording_ok, accessibility_ok)),
            ),
            None => unavailable_reply(),
        },
{
    match probes {
        Some((screen_recording_ok, accessibility_ok)) => with_body(
            200,
            Body::Permissions(check_permissions(screen_recording_ok, accessibility_ok)),
        ),
        None => unavailable(),
    }
}

} // verus!
