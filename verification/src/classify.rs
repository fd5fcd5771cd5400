//! The classifier: the class denylist, the self-process check, and the
//! error taxonomy of the command surface.

use vstd::prelude::*;
use vstd::string::{StrSliceExecFns, StringExecFns};

use crate::text::{contains_str, str_contains};

verus! {

/// Why the classifier refused a candidate window.
#[derive(Clone, Debug)]
pub enum RejectReason {
    /// The window belongs to the host process itself.
    SelfProcess,
    /// The window's class name matches the denylist; the name is carried
    /// along for the message shown to the user.
    ForbiddenClass(String),
}

/// The stable error taxonomy of the command surface.
#[derive(Clone, Debug)]
pub enum EmbedError {
    /// The operation is not available on this platform.
    Unsupported,
    /// The host frame window has not been created yet.
    NoHostFrame,
    /// The classifier refused the candidate.
    NotEmbeddable(RejectReason),
    /// Reserved: a double embed is treated as idempotent success instead.
    AlreadyEmbedded,
    /// The handle no longer denotes a live window.
    Gone,
    /// A window-manager primitive failed; carries the operation's name.
    OsFailure(String),
}

/// Window classes whose members must never be embedded: shell roots, desktop
/// workers, taskbars, the task manager, and platform-managed core windows.
/// Matching is by substring containment, to cover variant suffixes.
pub open spec fn spec_dangerous_classes() -> Seq<Seq<char>> {
    seq![
        "CabinetWClass"@,
        "ExplorerWClass"@,
        "Progman"@,
        "WorkerW"@,
        "Shell_TrayWnd"@,
        "Shell_SecondaryTrayWnd"@,
        "TaskManagerWindow"@,
        "Windows.UI.Core.CoreWindow"@,
    ]
}

/// The class denylist as strings, in the order `spec_dangerous_classes`
/// gives them.
pub fn dangerous_classes() -> (r: Vec<String>)
    ensures
        r@.len() == spec_dangerous_classes().len(),
        forall|i: int| 0 <= i < r@.len() ==> (#[trigger] r@[i])@ == spec_dangerous_classes()[i],
{
    let mut v: Vec<String> = Vec::new();
    v.push(String::from_str("CabinetWClass"));
    v.push(String::from_str("ExplorerWClass"));
    v.push(String::from_str("Progman"));
    v.push(String::from_str("WorkerW"));
    v.push(String::from_str("Shell_TrayWnd"));
    v.push(String::from_str("Shell_SecondaryTrayWnd"));
    v.push(String::from_str("TaskManagerWindow"));
    v.push(String::from_str("Windows.UI.Core.CoreWindow"));
    v
}

/// A class name is dangerous when it contains an entry of the denylist.
pub open spec fn spec_is_dangerous(class_name: Seq<char>) -> bool {
    exists|i: int|
        0 <= i < spec_dangerous_classes().len() && contains_str(
            class_name,
            spec_dangerous_classes()[i],
        )
}

/// Whether a window of this class may not be embedded (such windows can
/// destabilise the desktop when reparented).
pub fn is_dangerous_window(class_name: &str) -> (r: bool)
    ensures
        r == spec_is_dangerous(class_name@),
{
    let list = dangerous_classes();
    let n = list.len();
    let mut i: usize = 0;
    while i < n
        invariant
            n == list@.len(),
            0 <= i <= n,
            list@.len() == spec_dangerous_classes().len(),
            forall|k: int| 0 <= k < n ==> (#[trigger] list@[k])@ == spec_dangerous_classes()[k],
            forall|k: int|
                0 <= k < i ==> !contains_str(class_name@, spec_dangerous_classes()[k]),
        decreases n - i,
    {
        if str_contains(class_name, list[i].as_str()) {
            return true;
        }
        i += 1;
    }
    false
}

/// The classifier: a window is eligible for embedding unless it belongs to
/// the host process or its class name matches the denylist. The verdict
/// depends only on the given process identities and class name.
pub fn can_embed_window(window_pid: u32, host_pid: u32, class_name: &str) -> (r: Result<
    (),
    EmbedError,
>)
    ensures
        match r {
            Ok(()) => window_pid != host_pid && !spec_is_dangerous(class_name@),
            Err(e) => match e {
                EmbedError::NotEmbeddable(RejectReason::SelfProcess) => window_pid == host_pid,
                EmbedError::NotEmbeddable(RejectReason::ForbiddenClass(c)) => window_pid
                    != host_pid && spec_is_dangerous(class_name@) && c@ == class_name@,
                _ => false,
            },
        },
{
    if window_pid == host_pid {
        return Err(EmbedError::NotEmbeddable(RejectReason::SelfProcess));
    }
    if is_dangerous_window(class_name) {
        return Err(
            EmbedError::NotEmbeddable(RejectReason::ForbiddenClass(String::from_str(class_name))),
        );
    }
    Ok(())
}

impl EmbedError {
    /// A short human-readable message for the user interface; the stable
    /// kind stays in the variant.
    pub fn message(&self) -> (r: String)
        ensures
            match self {
                EmbedError::NotEmbeddable(RejectReason::ForbiddenClass(c)) => r@
                    == "window class cannot be embedded: "@ + c@,
                EmbedError::OsFailure(op) => r@ == "window manager call failed: "@ + op@,
                _ => true,
            },
    {
        match self {
            EmbedError::Unsupported => String::from_str("not supported on this platform"),
            EmbedError::NoHostFrame => String::from_str("the host frame does not exist yet"),
            EmbedError::NotEmbeddable(RejectReason::SelfProcess) => String::from_str(
                "cannot embed the host's own window",
            ),
            EmbedError::NotEmbeddable(RejectReason::ForbiddenClass(c)) => String::from_str(
                "window class cannot be embedded: ",
            ).concat(c.as_str()),
            EmbedError::AlreadyEmbedded => String::from_str("the window is already embedded"),
            EmbedError::Gone => String::from_str("the window no longer exists"),
            EmbedError::OsFailure(op) => String::from_str("window manager call failed: ").concat(
                op.as_str(),
            ),
        }
    }
}

} // verus!
