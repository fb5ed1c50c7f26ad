use vstd::prelude::*;
use vstd::string::*;

use crate::poller::{check_spawned_tasks, ctrl_c_error, sender_setup_error};

verus! {

/// Where the start of the monitor stands.
#[derive(Debug, Clone, Copy, PartialEq, Eq, Structural)]
pub enum SetupStage {
    /// Nothing done yet.
    Start,
    /// The log sender is being opened.
    OpeningSender,
    /// The providers are being set up, in the order of the plan.
    InitProviders,
    /// The event that reports the pollers' set-up is being sent.
    SendingConfig,
    /// The polling tasks are being started.
    Spawning,
    /// The monitor runs until it is asked to stop.
    Running,
    /// The start is over.
    Done,
}

/// What the start of the monitor does next.
#[derive(Debug, PartialEq, Eq)]
pub enum SetupAction {
    /// Open the log sender.
    OpenSender,
    /// Set up the provider at this place of the plan.
    InitProvider(usize),
    /// Send the event that reports how the pollers are set up.
    SendConfigEvent,
    /// Start the polling tasks.
    SpawnTasks,
    /// Wait for Ctrl-C.
    WaitForShutdown,
    /// Stop, with this result.
    Finish(Result<(), String>),
}

/// What came of the last action.
#[derive(Debug, PartialEq, Eq)]
pub enum SetupEvent {
    /// The start begins.
    Begin,
    /// The log sender was opened, or why not.
    SenderOpened(Result<(), String>),
    /// The provider was set up, or the message saying why not.
    ProviderReady(Result<(), String>),
    /// The set-up event was sent, or why not.
    ConfigSent(Result<(), String>),
    /// This many polling tasks were started.
    TasksSpawned(usize),
    /// Ctrl-C came, or why it cannot be waited for.
    Shutdown(Result<(), String>),
}

/// The start of the monitor: open the log sender, set up every provider of
/// the plan in order, report the set-up, start the polling tasks, and run
/// until Ctrl-C; the first failure ends it with its message.
pub struct Setup {
    /// The number of providers in the plan.
    pub providers: usize,
    /// The number of providers set up so far.
    pub ready: usize,
    pub stage: SetupStage,
}

/// Whether `ev` is what the action of the stage `stage` gives back.
pub open spec fn expects(stage: SetupStage, ev: SetupEvent) -> bool {
    match stage {
        SetupStage::Start => ev is Begin,
        SetupStage::OpeningSender => ev is SenderOpened,
        SetupStage::InitProviders => ev is ProviderReady,
        SetupStage::SendingConfig => ev is ConfigSent,
        SetupStage::Spawning => ev is TasksSpawned,
        SetupStage::Running => ev is Shutdown,
        SetupStage::Done => false,
    }
}

impl Setup {
    /// The stage agrees with the count of providers set up: none before they
    /// are set up, fewer than all while they are, and all of them once the
    /// set-up is reported.
    pub open spec fn wf(&self) -> bool {
        &&& self.ready <= self.providers
        &&& (self.stage is Start || self.stage is OpeningSender) ==> self.ready == 0
        &&& self.stage is InitProviders ==> self.ready < self.providers
        &&& (self.stage is SendingConfig || self.stage is Spawning || self.stage is Running)
            ==> self.ready == self.providers
    }

    /// The start of a monitor with `providers` providers in its plan.
    pub fn new(providers: usize) -> (r: Self)
        ensures
            r.wf(),
            r.providers == providers,
            r.ready == 0,
            r.stage == SetupStage::Start,
    {
        Setup { providers, ready: 0, stage: SetupStage::Start }
    }

    /// Takes what came of the last action, and says what comes next.
    pub fn step(&mut self, ev: SetupEvent) -> (a: SetupAction)
        requires
            old(self).wf(),
            expects(old(self).stage, ev),
        ensures
            final(self).wf(),
            final(self).providers == old(self).providers,
            a matches SetupAction::InitProvider(i) ==> i == final(self).ready && final(self).stage
                == SetupStage::InitProviders,
            a is SendConfigEvent ==> final(self).ready == final(self).providers,
            a is SpawnTasks ==> final(self).ready == final(self).providers,
            a is Finish <==> final(self).stage == SetupStage::Done,
            match ev {
                SetupEvent::Begin => {
                    &&& final(self).stage == SetupStage::OpeningSender
                    &&& final(self).ready == 0
                    &&& a == SetupAction::OpenSender
                },
                SetupEvent::SenderOpened(Ok(())) => if old(self).providers > 0 {
                    final(self).stage == SetupStage::InitProviders && final(self).ready == 0 && a
                        == SetupAction::InitProvider(0)
                } else {
                    final(self).stage == SetupStage::SendingConfig && a
                        == SetupAction::SendConfigEvent
                },
                SetupEvent::SenderOpened(Err(_)) => a matches SetupAction::Finish(Err(m)) && m@
                    == "Ошибка конфигурации.\n"@,
                SetupEvent::ProviderReady(Ok(())) => {
                    &&& final(self).ready == old(self).ready + 1
                    &&& final(self).ready < final(self).providers ==> {
                        &&& final(self).stage == SetupStage::InitProviders
                        &&& a == SetupAction::InitProvider(final(self).ready)
                    }
                    &&& final(self).ready == final(self).providers ==> {
                        &&& final(self).stage == SetupStage::SendingConfig
                        &&& a == SetupAction::SendConfigEvent
                    }
                },
                SetupEvent::ProviderReady(Err(e)) => a matches SetupAction::Finish(Err(m)) && m@
                    == e@,
                SetupEvent::ConfigSent(Ok(())) => final(self).stage == SetupStage::Spawning && a
                    == SetupAction::SpawnTasks,
                SetupEvent::ConfigSent(Err(e)) => a matches SetupAction::Finish(Err(m)) && m@
                    == e@,
                SetupEvent::TasksSpawned(n) => if n == 0 {
                    a matches SetupAction::Finish(Err(m)) && m@
                        == "Нет задач для опроса. Монитор не запущен."@
                } else {
                    final(self).stage == SetupStage::Running && a == SetupAction::WaitForShutdown
                },
                SetupEvent::Shutdown(Ok(())) => a == SetupAction::Finish(Ok(())),
                SetupEvent::Shutdown(Err(e)) => a matches SetupAction::Finish(Err(m)) && m@
                    == "Ошибка системы: "@ + e@,
            },
    {
        match ev {
            SetupEvent::Begin => {
                self.stage = SetupStage::OpeningSender;
                SetupAction::OpenSender
            },
            SetupEvent::SenderOpened(Ok(())) => {
                if self.providers > 0 {
                    self.stage = SetupStage::InitProviders;
                    SetupAction::InitProvider(0)
                } else {
                    self.stage = SetupStage::SendingConfig;
                    SetupAction::SendConfigEvent
                }
            },
            SetupEvent::SenderOpened(Err(_)) => {
                self.stage = SetupStage::Done;
                SetupAction::Finish(Err(sender_setup_error()))
            },
            SetupEvent::ProviderReady(Ok(())) => {
                self.ready = self.ready + 1;
                if self.ready < self.providers {
                    SetupAction::InitProvider(self.ready)
                } else {
                    self.stage = SetupStage::SendingConfig;
                    SetupAction::SendConfigEvent
                }
            },
            SetupEvent::ProviderReady(Err(e)) => {
                self.stage = SetupStage::Done;
                SetupAction::Finish(Err(e))
            },
            SetupEvent::ConfigSent(Ok(())) => {
                self.stage = SetupStage::Spawning;
                SetupAction::SpawnTasks
            },
            SetupEvent::ConfigSent(Err(e)) => {
                self.stage = SetupStage::Done;
                SetupAction::Finish(Err(e))
            },
            SetupEvent::TasksSpawned(n) => match check_spawned_tasks(n) {
                Ok(()) => {
                    self.stage = SetupStage::Running;
                    SetupAction::WaitForShutdown
                },
                Err(e) => {
                    self.stage = SetupStage::Done;
                    SetupAction::Finish(Err(e))
                },
            },
            SetupEvent::Shutdown(Ok(())) => {
                self.stage = SetupStage::Done;
                SetupAction::Finish(Ok(()))
            },
            SetupEvent::Shutdown(Err(e)) => {
                self.stage = SetupStage::Done;
                SetupAction::Finish(Err(ctrl_c_error(e.as_str())))
            },
        }
    }
}

} // verus!
