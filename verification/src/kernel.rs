//! The runtime core: what is put together once at startup, and the policy for
//! a startup that fails.

use vstd::prelude::*;
use crate::networking::{monitor_start, Networking};
use crate::pin_mgr::PinManager;
use crate::physical::hardware;
use crate::settings::Settings;
use crate::types::WifiState;

verus! {

/// A processor core that a task can be pinned to.
#[derive(Clone, Copy, Debug, PartialEq, Eq)]
pub enum Core {
    Core0,
    Core1,
}

/// Scheduling hints for a task that gets a thread of its own.
#[derive(Clone, Copy, Debug, PartialEq, Eq)]
pub struct ThreadConfig {
    pub priority: u8,
    /// The core to pin the task to, or `None` to let the scheduler choose.
    pub core: Option<Core>,
    /// Size of the task's stack, in bytes.
    pub stack_size: usize,
}

/// The steps of the startup, in the order in which they are taken.
#[derive(Clone, Copy, Debug, PartialEq, Eq)]
pub enum BootStep {
    /// Take the system event loop.
    EventLoop,
    /// Open the store and read the settings.
    Settings,
    /// Create the radio driver.
    WifiDriver,
    /// Wrap the radio driver for blocking calls.
    WifiWrapper,
    /// Fit the credentials of the settings into the driver's strings.
    Credentials,
    /// Hand the station configuration to the driver.
    WifiConfig,
    /// Start the connectivity monitor on its own thread.
    MonitorTask,
}

/// How far the startup has come.
#[derive(Clone, Copy, Debug, PartialEq, Eq)]
pub enum Boot {
    /// The step is to be taken next.
    Next(BootStep),
    /// Every step succeeded: the kernel can be put together.
    Ready,
    /// The step failed. The device halts for good: it does not restart, and
    /// nothing that happens afterwards takes it out of this state.
    Halted(BootStep),
}

/// What follows a step that succeeded.
pub open spec fn after(step: BootStep) -> Boot {
    match step {
        BootStep::EventLoop => Boot::Next(BootStep::Settings),
        BootStep::Settings => Boot::Next(BootStep::WifiDriver),
        BootStep::WifiDriver => Boot::Next(BootStep::WifiWrapper),
        BootStep::WifiWrapper => Boot::Next(BootStep::Credentials),
        BootStep::Credentials => Boot::Next(BootStep::WifiConfig),
        BootStep::WifiConfig => Boot::Next(BootStep::MonitorTask),
        BootStep::MonitorTask => Boot::Ready,
    }
}

/// The startup after the step it was about to take has succeeded (`ok`) or
/// failed. A startup that is ready or halted stays as it is.
pub open spec fn boot_step(boot: Boot, ok: bool) -> Boot {
    match boot {
        Boot::Next(step) => if ok {
            after(step)
        } else {
            Boot::Halted(step)
        },
        _ => boot,
    }
}

/// The startup after its steps ended as `outcomes` say, in their order.
pub open spec fn boot_run(boot: Boot, outcomes: Seq<bool>) -> Boot
    decreases outcomes.len(),
{
    if outcomes.len() == 0 {
        boot
    } else {
        boot_step(boot_run(boot, outcomes.drop_last()), outcomes.last())
    }
}

/// A halt is final: whatever is reported to a halted startup, it stays halted
/// at the step that failed.
pub proof fn law_halt_is_final(step: BootStep, outcomes: Seq<bool>)
    ensures
        boot_run(Boot::Halted(step), outcomes) == Boot::Halted(step),
    decreases outcomes.len(),
{
    if outcomes.len() > 0 {
        law_halt_is_final(step, outcomes.drop_last());
    }
}

/// The startup after `k` steps that succeeded, counted from its beginning.
pub open spec fn after_successes(k: int) -> Boot {
    if k <= 0 {
        Boot::Next(BootStep::EventLoop)
    } else if k == 1 {
        Boot::Next(BootStep::Settings)
    } else if k == 2 {
        Boot::Next(BootStep::WifiDriver)
    } else if k == 3 {
        Boot::Next(BootStep::WifiWrapper)
    } else if k == 4 {
        Boot::Next(BootStep::Credentials)
    } else if k == 5 {
        Boot::Next(BootStep::WifiConfig)
    } else if k == 6 {
        Boot::Next(BootStep::MonitorTask)
    } else {
        Boot::Ready
    }
}

/// As long as no step has failed, the startup is as far as the number of
/// steps says.
proof fn lemma_boot_prefix(outcomes: Seq<bool>, k: int)
    requires
        0 <= k <= outcomes.len(),
        forall|i: int| 0 <= i < k && i < 7 ==> outcomes[i],
    ensures
        boot_run(Boot::new(), outcomes.take(k)) == after_successes(k),
    decreases k,
{
    if k == 0 {
        assert(outcomes.take(0).len() == 0);
    } else {
        lemma_boot_prefix(outcomes, k - 1);
        assert(outcomes.take(k).drop_last() == outcomes.take(k - 1));
    }
}

/// The first step that fails halts the startup, at that step and for good.
pub proof fn law_first_failure_halts(outcomes: Seq<bool>, failed: int)
    requires
        0 <= failed < outcomes.len(),
        failed < 7,
        !outcomes[failed],
        forall|i: int| 0 <= i < failed ==> outcomes[i],
    ensures
        after_successes(failed) matches Boot::Next(step) && boot_run(Boot::new(), outcomes)
            == Boot::Halted(step),
{
    lemma_boot_prefix(outcomes, failed);
    assert(outcomes.take(failed + 1).drop_last() == outcomes.take(failed));
    let step = after_successes(failed)->Next_0;
    assert(boot_run(Boot::new(), outcomes.take(failed + 1)) == Boot::Halted(step));
    let rest = outcomes.skip(failed + 1);
    lemma_boot_split(Boot::new(), outcomes.take(failed + 1), rest);
    assert(outcomes.take(failed + 1) + rest == outcomes);
    law_halt_is_final(step, rest);
}

/// Steps can be taken in two runs, one after the other.
proof fn lemma_boot_split(boot: Boot, first: Seq<bool>, second: Seq<bool>)
    ensures
        boot_run(boot, first + second) == boot_run(boot_run(boot, first), second),
    decreases second.len(),
{
    if second.len() == 0 {
        assert(first + second == first);
    } else {
        lemma_boot_split(boot, first, second.drop_last());
        assert((first + second).drop_last() == first + second.drop_last());
    }
}

/// A startup gets ready only over seven steps that succeeded, one after the
/// other.
pub proof fn law_ready_after_every_step(outcomes: Seq<bool>)
    requires
        boot_run(Boot::new(), outcomes) is Ready,
    ensures
        outcomes.len() >= 7,
        forall|i: int| 0 <= i < 7 ==> outcomes[i],
{
    assert(outcomes.take(outcomes.len() as int) == outcomes);
    if exists|i: int| 0 <= i < outcomes.len() && i < 7 && !outcomes[i] {
        let failed = choose|i: int|
            0 <= i < outcomes.len() && i < 7 && !outcomes[i] && forall|j: int|
                0 <= j < i ==> outcomes[j];
        lemma_least_failure(outcomes, outcomes.len() as int);
        law_first_failure_halts(outcomes, failed);
    } else {
        lemma_boot_prefix(outcomes, outcomes.len() as int);
    }
}

/// Among the steps that failed there is a first.
proof fn lemma_least_failure(outcomes: Seq<bool>, n: int)
    requires
        0 <= n <= outcomes.len(),
        exists|i: int| 0 <= i < n && i < 7 && !outcomes[i],
    ensures
        exists|i: int|
            0 <= i < n && i < 7 && !outcomes[i] && forall|j: int| 0 <= j < i ==> outcomes[j],
    decreases n,
{
    if exists|i: int| 0 <= i < n - 1 && i < 7 && !outcomes[i] {
        lemma_least_failure(outcomes, n - 1);
    } else {
        let i = n - 1;
        assert(0 <= i < n && i < 7 && !outcomes[i] && forall|j: int| 0 <= j < i ==> outcomes[j]);
    }
}

impl BootStep {
    /// What the log says when the step fails.
    pub fn failure(&self) -> (text: &'static str)
        ensures
            text@ == (match *self {
                BootStep::EventLoop => "Failed to take system event loop"@,
                BootStep::Settings => "Failed to read settings"@,
                BootStep::WifiDriver => "Failed to create wifi instance"@,
                BootStep::WifiWrapper => "Failed to create async wifi instance"@,
                BootStep::Credentials => "Failed to fit wifi credentials"@,
                BootStep::WifiConfig => "Failed to set wifi configuration"@,
                BootStep::MonitorTask => "Failed to start networking task"@,
            }),
    {
        match self {
            BootStep::EventLoop => "Failed to take system event loop",
            BootStep::Settings => "Failed to read settings",
            BootStep::WifiDriver => "Failed to create wifi instance",
            BootStep::WifiWrapper => "Failed to create async wifi instance",
            BootStep::Credentials => "Failed to fit wifi credentials",
            BootStep::WifiConfig => "Failed to set wifi configuration",
            BootStep::MonitorTask => "Failed to start networking task",
        }
    }
}

impl Boot {
    /// A startup of which no step has been taken.
    pub open spec fn spec_new() -> Boot {
        Boot::Next(BootStep::EventLoop)
    }

    /// A startup of which no step has been taken.
    #[verifier::when_used_as_spec(spec_new)]
    pub fn new() -> (boot: Self)
        ensures
            boot == Boot::Next(BootStep::EventLoop),
    {
        Boot::Next(BootStep::EventLoop)
    }

    /// Takes in how the step that was to be taken ended.
    pub fn step(self, ok: bool) -> (boot: Self)
        ensures
            boot == boot_step(self, ok),
    {
        match self {
            Boot::Next(step) => if ok {
                match step {
                    BootStep::EventLoop => Boot::Next(BootStep::Settings),
                    BootStep::Settings => Boot::Next(BootStep::WifiDriver),
                    BootStep::WifiDriver => Boot::Next(BootStep::WifiWrapper),
                    BootStep::WifiWrapper => Boot::Next(BootStep::Credentials),
                    BootStep::Credentials => Boot::Next(BootStep::WifiConfig),
                    BootStep::WifiConfig => Boot::Next(BootStep::MonitorTask),
                    BootStep::MonitorTask => Boot::Ready,
                }
            } else {
                Boot::Halted(step)
            },
            Boot::Ready => Boot::Ready,
            Boot::Halted(step) => Boot::Halted(step),
        }
    }
}

/// The runtime core: the pin manager, the settings, and the connectivity
/// monitor with the state that it published last.
///
/// Threads that share the core share it as a whole, behind one lock that is
/// held for one call at a time: readers of the connectivity state then see
/// the state that was published last, and never wait for the driver.
pub struct Kernel<S> {
    pub pin_mgr: PinManager,
    pub settings: Settings<S>,
    pub net: Networking,
}

impl<S> Kernel<S> {
    /// Create a new kernel instance around the settings that were read: no
    /// pin is claimed, and the connectivity monitor is at its start.
    ///
    /// Create one per device: the pins it hands out are the device's.
    pub fn new(settings: Settings<S>) -> (kernel: Self)
        ensures
            kernel.settings == settings,
            kernel.net@ == monitor_start(),
            forall|i: int| 0 <= i < hardware::MAX_PINS ==> !kernel.pin_mgr@[i],
    {
        Kernel { pin_mgr: PinManager::new(), settings, net: Networking::new() }
    }

    /// The task that the connectivity monitor runs as: priority 5, on the
    /// second core, with 2048 bytes of stack.
    pub fn monitor_task() -> (task: ThreadConfig)
        ensures
            task == (ThreadConfig { priority: 5, core: Some(Core::Core1), stack_size: 2048 }),
    {
        ThreadConfig { priority: 5, core: Some(Core::Core1), stack_size: 2048 }
    }

    /// Check if the device is online.
    pub fn is_online(&self) -> (online: bool)
        ensures
            online == (self.net@.online is Connected),
    {
        self.net.state().is_connected()
    }

    /// Return wifi connection state.
    pub fn wifi_state(&self) -> (state: WifiState)
        ensures
            state == self.net@.online,
    {
        self.net.state()
    }

    /// Borrow the device settings.
    pub fn get_settings(&self) -> (settings: &Settings<S>)
        ensures
            *settings == self.settings,
    {
        &self.settings
    }
}

} // verus!
