//! The sandbox lifecycle: the decision sequence for loading the classifier
//! and attaching it to a network interface, and the server's configurable
//! inputs. The kernel calls themselves are performed by the caller, which
//! feeds each outcome back into this state machine.

use vstd::prelude::*;

verus! {

/// The server's two externally configurable inputs: the interface to
/// monitor and the query-layer listening port.
#[derive(Debug, Clone)]
pub struct Opt {
    pub iface: String,
    pub port: u16,
}

impl Default for Opt {
    fn default() -> (r: Opt)
        ensures
            r.iface@ == "eth0"@,
            r.port == 3000,
    {
        Opt { iface: "eth0".to_owned(), port: 3000 }
    }
}

/// The stages of bringing the kernel-resident classifier up.
#[derive(Debug, Clone, Copy, PartialEq, Eq, Structural)]
pub enum SetupStep {
    /// Raise the locked-memory resource limit; old kernels need it, failure
    /// is tolerated.
    RaiseMemlock,
    /// Load the compiled classifier image; failure is fatal.
    LoadProgram,
    /// Start the best-effort diagnostic log stream; failure is tolerated.
    InitLogger,
    /// Attach to the interface with the fast native hook.
    AttachNative,
    /// Retry the attachment with the universally supported generic hook.
    AttachGeneric,
    /// The classifier is attached and the shared counter map is reachable.
    Ready,
    /// Fatal startup error: there is no valid data source, the process must
    /// not proceed to serve metrics.
    Failed,
}

/// The next stage, given whether the stage just performed succeeded:
/// resource-limit and logger failures are absorbed, a failed native attach
/// falls back to the generic hook exactly once, and a failed load or a
/// failed generic attach is fatal.
pub open spec fn next_step_spec(s: SetupStep, ok: bool) -> SetupStep {
    match s {
        SetupStep::RaiseMemlock => SetupStep::LoadProgram,
        SetupStep::LoadProgram => if ok {
            SetupStep::InitLogger
        } else {
            SetupStep::Failed
        },
        SetupStep::InitLogger => SetupStep::AttachNative,
        SetupStep::AttachNative => if ok {
            SetupStep::Ready
        } else {
            SetupStep::AttachGeneric
        },
        SetupStep::AttachGeneric => if ok {
            SetupStep::Ready
        } else {
            SetupStep::Failed
        },
        SetupStep::Ready => SetupStep::Ready,
        SetupStep::Failed => SetupStep::Failed,
    }
}

/// Advances the attach sequence by one performed stage.
pub fn next_step(s: SetupStep, ok: bool) -> (n: SetupStep)
    ensures
        n == next_step_spec(s, ok),
{
    match s {
        SetupStep::RaiseMemlock => SetupStep::LoadProgram,
        SetupStep::LoadProgram => if ok {
            SetupStep::InitLogger
        } else {
            SetupStep::Failed
        },
        SetupStep::InitLogger => SetupStep::AttachNative,
        SetupStep::AttachNative => if ok {
            SetupStep::Ready
        } else {
            SetupStep::AttachGeneric
        },
        SetupStep::AttachGeneric => if ok {
            SetupStep::Ready
        } else {
            SetupStep::Failed
        },
        SetupStep::Ready => SetupStep::Ready,
        SetupStep::Failed => SetupStep::Failed,
    }
}

/// The sequence reaches `Ready` exactly when loading succeeds and at least
/// one of the two attach modes succeeds; tolerated failures never decide
/// it.
pub proof fn lemma_setup_outcome(
    limit_ok: bool,
    load_ok: bool,
    logger_ok: bool,
    native_ok: bool,
    generic_ok: bool,
)
    ensures
        ({
            let after_load = next_step_spec(next_step_spec(SetupStep::RaiseMemlock, limit_ok), load_ok);
            let after_native = next_step_spec(next_step_spec(after_load, logger_ok), native_ok);
            let outcome = if after_native == SetupStep::AttachGeneric {
                next_step_spec(after_native, generic_ok)
            } else {
                after_native
            };
            outcome == if load_ok && (native_ok || generic_ok) {
                SetupStep::Ready
            } else {
                SetupStep::Failed
            }
        }),
{
}

} // verus!
