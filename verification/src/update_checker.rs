//! Firmware updates: looking for one, and watching one through the reboot
//! that ends it.
//!
//! Both take several calls with pauses between them. What is called and
//! when is decided here; the caller makes the calls, sleeps through the
//! pauses, and reports what came back.

use crate::appliance::{call, call_of, empty_payload, get, get_of, post_empty, post_of};
use crate::db::{ApiInfo, ApiInfoView};
use crate::http_client::{Method, PreparedRequest, PreparedRequestView};
use crate::text::joined;
use vstd::prelude::*;

verus! {

/// The seconds between two looks at a check for updates that is running.
pub const CHECK_PAUSE_SECONDS: u64 = 2;

/// The seconds after which a check for updates that is still running is
/// given up: thirty minutes.
pub const CHECK_TIMEOUT_SECONDS: u64 = 1800;

/// The seconds between two looks at an update that is running.
pub const WATCH_PAUSE_SECONDS: u64 = 10;

/// The seconds that the appliance has to answer a look at a running update.
pub const WATCH_CALL_TIMEOUT_SECONDS: u64 = 5;

/// The seconds after which an update is given up: thirty minutes.
pub const WATCH_TIMEOUT_SECONDS: u64 = 1800;

/// Whether a status is there and is `wanted`.
fn status_is(status: Option<&str>, wanted: &str) -> (r: bool)
    ensures
        r == (status is Some && status->0@ == wanted@),
{
    match status {
        Some(status) => status.to_owned() == wanted.to_owned(),
        None => false,
    }
}

/// Whether the appliance took up what it was asked to start: its status is
/// `ok`.
pub fn accepted(status: Option<&str>) -> (r: bool)
    ensures
        r == (status is Some && status->0@ == "ok"@),
{
    status_is(status, "ok")
}

/// The steps of a check for updates, in their order.
#[derive(Debug, Clone, Copy, PartialEq, Eq, Structural)]
pub enum CheckPhase {
    /// The check is started.
    Start,
    /// The check is running and its state is looked at.
    Wait,
    /// The state of the firmware is read.
    Status,
    /// The latest version is read.
    Info,
}

/// What follows an answer in a check for updates.
#[derive(Debug, Clone, Copy, PartialEq, Eq, Structural)]
pub enum CheckMove {
    /// The call of this step is made at once.
    Call(CheckPhase),
    /// The call of this step is made after `CHECK_PAUSE_SECONDS`.
    PauseThenCall(CheckPhase),
    /// The appliance did not take up the check: the check has failed.
    Refused,
    /// The check ran for `CHECK_TIMEOUT_SECONDS` and is not done: it has
    /// failed.
    TimedOut,
    /// All answers are in.
    Finished,
}

/// The endpoint of each step of a check for updates.
pub open spec fn check_endpoint(phase: CheckPhase) -> Seq<char> {
    match phase {
        CheckPhase::Start => "/api/core/firmware/check"@,
        CheckPhase::Wait => "/api/core/firmware/upgradestatus"@,
        CheckPhase::Status => "/api/core/firmware/status"@,
        CheckPhase::Info => "/api/core/firmware/info"@,
    }
}

/// The call of each step of a check for updates: the check is started with
/// a POST, everything else is read.
pub open spec fn check_call_of(profile: ApiInfoView, phase: CheckPhase) -> PreparedRequestView {
    match phase {
        CheckPhase::Start => post_of(profile, check_endpoint(phase), empty_payload()),
        _ => get_of(profile, check_endpoint(phase)),
    }
}

/// The call of a step of a check for updates.
pub fn check_call(api_info: &ApiInfo, phase: CheckPhase) -> (request: PreparedRequest)
    ensures
        request@ == check_call_of(api_info@, phase),
{
    match phase {
        CheckPhase::Start => post_empty(api_info, "/api/core/firmware/check"),
        CheckPhase::Wait => get(api_info, "/api/core/firmware/upgradestatus"),
        CheckPhase::Status => get(api_info, "/api/core/firmware/status"),
        CheckPhase::Info => get(api_info, "/api/core/firmware/info"),
    }
}

/// What follows the answer to a step of a check for updates, given the
/// status that the answer carries and the whole seconds since the check
/// began.
pub open spec fn check_move_of(
    phase: CheckPhase,
    status: Option<Seq<char>>,
    elapsed_seconds: u64,
) -> CheckMove {
    match phase {
        CheckPhase::Start => if status == Some("ok"@) {
            CheckMove::Call(CheckPhase::Wait)
        } else {
            CheckMove::Refused
        },
        CheckPhase::Wait => if status == Some("done"@) {
            CheckMove::Call(CheckPhase::Status)
        } else if elapsed_seconds >= CHECK_TIMEOUT_SECONDS {
            CheckMove::TimedOut
        } else {
            CheckMove::PauseThenCall(CheckPhase::Wait)
        },
        CheckPhase::Status => CheckMove::Call(CheckPhase::Info),
        CheckPhase::Info => CheckMove::Finished,
    }
}

/// A check for updates does not wait forever: once the time is up it never
/// pauses to look again, and a step other than the waiting never leads back
/// to itself or to an earlier one.
pub proof fn lemma_check_ends(phase: CheckPhase, status: Option<Seq<char>>, elapsed_seconds: u64)
    ensures
        elapsed_seconds >= CHECK_TIMEOUT_SECONDS ==> !(check_move_of(
            phase,
            status,
            elapsed_seconds,
        ) is PauseThenCall),
        check_move_of(phase, status, elapsed_seconds) matches CheckMove::PauseThenCall(next)
            ==> phase == CheckPhase::Wait && next == CheckPhase::Wait,
        check_move_of(phase, status, elapsed_seconds) matches CheckMove::Call(next) ==> (
        phase == CheckPhase::Start && next == CheckPhase::Wait) || (phase == CheckPhase::Wait
            && next == CheckPhase::Status) || (phase == CheckPhase::Status && next
            == CheckPhase::Info),
{
}

/// What follows the answer to a step of a check for updates. `status` is
/// the status that the answer carries, where it carries one as a text;
/// `elapsed_seconds` is the whole seconds since the check began. The check
/// goes on once the appliance took it up, waits until the appliance is done
/// or the time is up, and then reads the state of the firmware and the
/// latest version.
pub fn check_move(phase: CheckPhase, status: Option<&str>, elapsed_seconds: u64) -> (next:
    CheckMove)
    ensures
        next == check_move_of(
            phase,
            match status {
                Some(status) => Some(status@),
                None => None,
            },
            elapsed_seconds,
        ),
{
    match phase {
        CheckPhase::Start => if status_is(status, "ok") {
            CheckMove::Call(CheckPhase::Wait)
        } else {
            CheckMove::Refused
        },
        CheckPhase::Wait => if status_is(status, "done") {
            CheckMove::Call(CheckPhase::Status)
        } else if elapsed_seconds >= CHECK_TIMEOUT_SECONDS {
            CheckMove::TimedOut
        } else {
            CheckMove::PauseThenCall(CheckPhase::Wait)
        },
        CheckPhase::Status => CheckMove::Call(CheckPhase::Info),
        CheckPhase::Info => CheckMove::Finished,
    }
}

/// What is shown when a check for updates ran out of time.
pub fn check_timed_out() -> (text: String)
    ensures
        text@ == "Check for updates timed out"@,
{
    "Check for updates timed out".to_owned()
}

/// Reads the changes that a version brings.
pub fn get_changelog_call(api_info: &ApiInfo, version: &str) -> (request: PreparedRequest)
    ensures
        request@ == post_of(
            api_info@,
            "/api/core/firmware/changelog/"@ + version@,
            empty_payload(),
        ),
{
    post_empty(api_info, joined("/api/core/firmware/changelog/", version).as_str())
}

/// Reads the state of the firmware.
pub fn get_current_firmware_status_call(api_info: &ApiInfo) -> (request: PreparedRequest)
    ensures
        request@ == get_of(api_info@, "/api/core/firmware/status"@),
{
    get(api_info, "/api/core/firmware/status")
}

/// Starts an update.
pub fn start_update_call(api_info: &ApiInfo) -> (request: PreparedRequest)
    ensures
        request@ == post_of(api_info@, "/api/core/firmware/update"@, empty_payload()),
{
    post_empty(api_info, "/api/core/firmware/update")
}

/// Looks at a running update. The appliance gets little time to answer: it
/// is expected to go away for a while.
pub fn watch_call(api_info: &ApiInfo) -> (request: PreparedRequest)
    ensures
        request@ == call_of(
            api_info@,
            Method::Get,
            "/api/core/firmware/upgradestatus"@,
            None,
            None,
            WATCH_CALL_TIMEOUT_SECONDS,
        ),
{
    call(
        api_info,
        Method::Get,
        "/api/core/firmware/upgradestatus",
        None,
        None,
        WATCH_CALL_TIMEOUT_SECONDS,
    )
}

/// Whether an update that has been watched for `elapsed_seconds` whole
/// seconds is looked at once more.
pub fn keeps_watching(elapsed_seconds: u64) -> (r: bool)
    ensures
        r == (elapsed_seconds < WATCH_TIMEOUT_SECONDS),
{
    elapsed_seconds < WATCH_TIMEOUT_SECONDS
}

/// What is known of a running update.
#[derive(Debug, Clone, Copy, PartialEq, Eq, Structural)]
pub struct UpdateWatch {
    /// The appliance has said that it reboots, or has stopped answering.
    pub reboot_detected: bool,
}

/// What a look at a running update gave.
#[derive(Debug, PartialEq, Eq)]
pub enum StatusPoll {
    /// The appliance answered. `status` is the status that the answer
    /// carries, where it carries one as a text.
    Answered { status: Option<String> },
    /// The appliance answered, and the answer could not be read.
    Unreadable { detail: String },
    /// The appliance did not answer, or with an error.
    Unreachable,
}

/// A look at a running update as plain values.
#[verifier::ext_equal]
pub enum StatusPollView {
    Answered { status: Option<Seq<char>> },
    Unreadable { detail: Seq<char> },
    Unreachable,
}

impl View for StatusPoll {
    type V = StatusPollView;

    open spec fn view(&self) -> StatusPollView {
        match self {
            StatusPoll::Answered { status } => StatusPollView::Answered {
                status: match status {
                    Some(status) => Some(status@),
                    None => None,
                },
            },
            StatusPoll::Unreadable { detail } => StatusPollView::Unreadable { detail: detail@ },
            StatusPoll::Unreachable => StatusPollView::Unreachable,
        }
    }
}

/// What follows a look at a running update.
#[derive(Debug, PartialEq, Eq)]
pub enum WatchStep {
    /// The update is through. The text says so.
    Completed(String),
    /// The update is given up. The text says why.
    Failed(String),
    /// The update is looked at again after `WATCH_PAUSE_SECONDS`. The note
    /// says what was seen.
    Wait { watch: UpdateWatch, note: String },
}

/// What follows a look at a running update, as plain values.
#[verifier::ext_equal]
pub enum WatchStepView {
    Completed(Seq<char>),
    Failed(Seq<char>),
    Wait { watch: UpdateWatch, note: Seq<char> },
}

impl View for WatchStep {
    type V = WatchStepView;

    open spec fn view(&self) -> WatchStepView {
        match self {
            WatchStep::Completed(text) => WatchStepView::Completed(text@),
            WatchStep::Failed(text) => WatchStepView::Failed(text@),
            WatchStep::Wait { watch, note } => WatchStepView::Wait { watch: *watch, note: note@ },
        }
    }
}

/// What follows a look at a running update. An appliance that answers
/// after its reboot was detected is back, and the update is through; before
/// that, an answer that cannot be read ends the watch, a status of `reboot`
/// and a missing answer both mean that the reboot has begun, and any other
/// answer leaves things as they are.
pub open spec fn watch_step_of(watch: UpdateWatch, poll: StatusPollView) -> WatchStepView {
    let back_online = WatchStepView::Completed(
        "Update completed successfully. System is back online."@,
    );
    match poll {
        StatusPollView::Unreachable => WatchStepView::Wait {
            watch: UpdateWatch { reboot_detected: true },
            note: if watch.reboot_detected {
                "System is unresponsive, waiting for it to come back online..."@
            } else {
                "Lost connection to system, possible reboot in progress..."@
            },
        },
        StatusPollView::Unreadable { detail } => if watch.reboot_detected {
            back_online
        } else {
            WatchStepView::Failed("Failed to parse upgrade status: "@ + detail)
        },
        StatusPollView::Answered { status } => if watch.reboot_detected {
            back_online
        } else if status is None {
            WatchStepView::Wait { watch, note: "Unknown status"@ }
        } else if status->0 == "reboot"@ {
            WatchStepView::Wait {
                watch: UpdateWatch { reboot_detected: true },
                note: "Reboot initiated, waiting for system to become unresponsive..."@,
            }
        } else if status->0 == "done"@ {
            WatchStepView::Wait { watch, note: "Update process completed, waiting for reboot..."@ }
        } else {
            WatchStepView::Wait { watch, note: "Current status: "@ + status->0 }
        },
    }
}

/// A reboot that was detected stays detected, and the first answer after it
/// ends the watch: the appliance is back.
pub proof fn lemma_watch_ends_after_reboot(watch: UpdateWatch, poll: StatusPollView)
    ensures
        watch_step_of(watch, poll) matches WatchStepView::Wait { watch: next, .. }
            ==> watch.reboot_detected ==> next.reboot_detected,
        watch.reboot_detected && !(poll is Unreachable) ==> watch_step_of(watch, poll)
            is Completed,
        !watch.reboot_detected ==> !(watch_step_of(watch, poll) is Completed),
{
}

/// What follows a look at a running update.
pub fn watch_step(watch: UpdateWatch, poll: StatusPoll) -> (step: WatchStep)
    ensures
        step@ == watch_step_of(watch, poll@),
{
    match poll {
        StatusPoll::Unreachable => WatchStep::Wait {
            watch: UpdateWatch { reboot_detected: true },
            note: if watch.reboot_detected {
                "System is unresponsive, waiting for it to come back online...".to_owned()
            } else {
                "Lost connection to system, possible reboot in progress...".to_owned()
            },
        },
        StatusPoll::Unreadable { detail } => if watch.reboot_detected {
            WatchStep::Completed("Update completed successfully. System is back online.".to_owned())
        } else {
            WatchStep::Failed(joined("Failed to parse upgrade status: ", detail.as_str()))
        },
        StatusPoll::Answered { status } => if watch.reboot_detected {
            WatchStep::Completed("Update completed successfully. System is back online.".to_owned())
        } else {
            match status {
                None => WatchStep::Wait { watch, note: "Unknown status".to_owned() },
                Some(status) => if status_is(Some(status.as_str()), "reboot") {
                    WatchStep::Wait {
                        watch: UpdateWatch { reboot_detected: true },
                        note: "Reboot initiated, waiting for system to become unresponsive...".to_owned(),
                    }
                } else if status_is(Some(status.as_str()), "done") {
                    WatchStep::Wait {
                        watch,
                        note: "Update process completed, waiting for reboot...".to_owned(),
                    }
                } else {
                    WatchStep::Wait { watch, note: joined("Current status: ", status.as_str()) }
                },
            }
        },
    }
}

/// What is shown when an update was watched for too long.
pub fn watch_timed_out() -> (text: String)
    ensures
        text@ == "Update timed out or failed to detect system coming back online"@,
{
    "Update timed out or failed to detect system coming back online".to_owned()
}

} // verus!
