//! Getting past a whitelist without settings: a tunnel is set up when asked
//! for, or when one is found to be needed.
use vstd::prelude::*;

use crate::proxy::surfeasy::SeIpEntry;
use crate::text::owned;

verus! {

/// What the engine is doing.
#[derive(Debug, Clone, Copy, PartialEq, Eq, Structural)]
pub enum ZeroConfigState {
    Initializing,
    /// The tunnel stands.
    OperaProxyActive,
    /// There is no tunnel.
    DesyncOnly,
    /// The tunnel could not be set up.
    Failed,
}

/// The settings of the engine.
#[derive(Debug, Clone)]
pub struct ZeroConfigConfig {
    pub enabled: bool,
    pub auto_detect: bool,
    /// The server name that is shown to onlookers.
    pub opera_masquerade_sni: String,
}

/// The engine, as far as it decides.
#[derive(Debug)]
pub struct ZeroConfigEngine {
    pub config: ZeroConfigConfig,
    pub state: ZeroConfigState,
    pub auto_active: bool,
    /// Whether a tunnel is at hand.
    pub has_tunnel: bool,
}

/// What is to be done next.
#[derive(Debug, Clone, Copy, PartialEq, Eq, Structural)]
pub enum ZeroStep {
    Nothing,
    /// A tunnel is set up.
    Activate,
    /// The tunnel is taken down.
    Deactivate,
}

/// Whether the engine is consistent: it is active exactly where it has a
/// tunnel.
pub open spec fn consistent(e: ZeroConfigEngine) -> bool {
    e.has_tunnel <==> e.state == ZeroConfigState::OperaProxyActive
}

/// What starting an engine comes to: where it is enabled a tunnel is set up
/// unless one stands, else it waits.
pub open spec fn begun(before: ZeroConfigEngine, step: ZeroStep, after: ZeroConfigEngine) -> bool {
    &&& after.config == before.config
    &&& after.auto_active == before.auto_active
    &&& after.has_tunnel == before.has_tunnel
    &&& if before.config.enabled {
        &&& after.state == before.state
        &&& step == (if before.state == ZeroConfigState::OperaProxyActive {
            ZeroStep::Nothing
        } else {
            ZeroStep::Activate
        })
    } else {
        &&& after.state == ZeroConfigState::DesyncOnly
        &&& step == ZeroStep::Nothing
    }
}

/// What telling an engine whether a tunnel is needed comes to.
pub open spec fn told(
    before: ZeroConfigEngine,
    active: bool,
    step: ZeroStep,
    after: ZeroConfigEngine,
) -> bool {
    &&& after.config == before.config
    &&& after.auto_active == active
    &&& if active == before.auto_active {
        &&& step == ZeroStep::Nothing
        &&& after.state == before.state
        &&& after.has_tunnel == before.has_tunnel
    } else if active {
        &&& step == (if before.state == ZeroConfigState::OperaProxyActive {
            ZeroStep::Nothing
        } else {
            ZeroStep::Activate
        })
        &&& after.state == before.state
        &&& after.has_tunnel == before.has_tunnel
    } else {
        &&& step == ZeroStep::Deactivate
        &&& after.state == ZeroConfigState::DesyncOnly
        &&& !after.has_tunnel
        &&& consistent(after)
    }
}

impl ZeroConfigEngine {
    /// An engine that has not started.
    pub fn new(config: ZeroConfigConfig) -> (r: ZeroConfigEngine)
        ensures
            r.config == config,
            r.state == ZeroConfigState::Initializing,
            !r.auto_active,
            !r.has_tunnel,
            consistent(r),
    {
        ZeroConfigEngine {
            config,
            state: ZeroConfigState::Initializing,
            auto_active: false,
            has_tunnel: false,
        }
    }

    /// Starts the engine: where it is enabled a tunnel is set up, else it
    /// waits.
    pub fn initialize(&mut self) -> (r: ZeroStep)
        ensures
            begun(*old(self), r, *final(self)),
    {
        if self.config.enabled {
            self.activate_tunnel()
        } else {
            self.state = ZeroConfigState::DesyncOnly;
            ZeroStep::Nothing
        }
    }

    /// The tunnel could not be set up at the start.
    pub fn initialize_failed(&mut self)
        ensures
            final(self).state == ZeroConfigState::Failed,
            final(self).config == old(self).config,
            final(self).auto_active == old(self).auto_active,
            final(self).has_tunnel == old(self).has_tunnel,
    {
        self.state = ZeroConfigState::Failed;
    }

    /// Whether a tunnel has to be set up.
    pub fn activate_tunnel(&self) -> (r: ZeroStep)
        ensures
            r == (if self.state == ZeroConfigState::OperaProxyActive {
                ZeroStep::Nothing
            } else {
                ZeroStep::Activate
            }),
    {
        match self.state {
            ZeroConfigState::OperaProxyActive => ZeroStep::Nothing,
            _ => ZeroStep::Activate,
        }
    }

    /// The tunnel stands.
    pub fn activated(&mut self)
        ensures
            final(self).state == ZeroConfigState::OperaProxyActive,
            final(self).has_tunnel,
            final(self).config == old(self).config,
            final(self).auto_active == old(self).auto_active,
            consistent(*final(self)),
    {
        self.has_tunnel = true;
        self.state = ZeroConfigState::OperaProxyActive;
    }

    /// The detector says whether a tunnel is needed. Only a change matters.
    pub fn set_auto_active(&mut self, active: bool) -> (r: ZeroStep)
        ensures
            told(*old(self), active, r, *final(self)),
    {
        let before: bool = self.auto_active;
        self.auto_active = active;
        if active && !before {
            self.activate_tunnel()
        } else if !active && before {
            self.has_tunnel = false;
            self.state = ZeroConfigState::DesyncOnly;
            ZeroStep::Deactivate
        } else {
            ZeroStep::Nothing
        }
    }

    /// The tunnel that the detector asked for could not be set up.
    pub fn auto_failed(&mut self)
        ensures
            *final(self) == (ZeroConfigEngine { auto_active: false, ..*old(self) }),
    {
        self.auto_active = false;
    }

    /// What the engine is doing.
    pub fn get_state(&self) -> (r: ZeroConfigState)
        ensures
            r == self.state,
    {
        self.state
    }

    /// Whether the tunnel stands.
    pub fn is_active(&self) -> (r: bool)
        ensures
            r == (self.state == ZeroConfigState::OperaProxyActive),
    {
        matches!(self.state, ZeroConfigState::OperaProxyActive)
    }
}

/// The proxy that a tunnel is set up through.
#[derive(Debug, Clone)]
pub struct ChosenProxy {
    pub host: String,
    pub port: u16,
}

/// The proxy that a tunnel is set up through: the first that was found. Where
/// looking for them failed, a known one is taken; where none was found, there
/// is none.
pub fn choose_proxy(discovered: Option<Vec<SeIpEntry>>) -> (r: Option<ChosenProxy>)
    ensures
        match (discovered, r) {
            (None, Some(c)) => c.host@ == "eu0.sec-tunnel.com"@ && c.port == 443,
            (Some(list), Some(c)) => list@.len() > 0 && c.host@ == list@[0].host_text() && c.port
                == list@[0].port_number(),
            (Some(list), None) => list@.len() == 0,
            (None, None) => false,
        },
{
    match discovered {
        None => Some(ChosenProxy { host: owned("eu0.sec-tunnel.com"), port: 443 }),
        Some(list) => if list.len() == 0 {
            None
        } else {
            Some(ChosenProxy { host: list[0].host_name(), port: list[0].port() })
        },
    }
}

/// Only a change of need matters: a tunnel is set up where one comes to be needed
/// and none stands, and taken down where it is no longer needed. Being told the
/// same again does nothing.
pub proof fn only_changes_of_need_matter(
    before: ZeroConfigEngine,
    active: bool,
    step: ZeroStep,
    after: ZeroConfigEngine,
    again: ZeroStep,
    later: ZeroConfigEngine,
)
    requires
        told(before, active, step, after),
        told(after, active, again, later),
    ensures
        step == ZeroStep::Activate <==> active && !before.auto_active && before.state
            != ZeroConfigState::OperaProxyActive,
        step == ZeroStep::Deactivate <==> !active && before.auto_active,
        step == ZeroStep::Deactivate ==> !after.has_tunnel && after.state
            == ZeroConfigState::DesyncOnly,
        step != ZeroStep::Deactivate ==> after.has_tunnel == before.has_tunnel && after.state
            == before.state,
        again == ZeroStep::Nothing && later == after,
{
}

/// An engine that is not enabled sets nothing up; one that is does so at its
/// start, unless a tunnel stands.
pub proof fn only_enabled_engines_begin(
    before: ZeroConfigEngine,
    step: ZeroStep,
    after: ZeroConfigEngine,
)
    requires
        begun(before, step, after),
    ensures
        step == ZeroStep::Activate <==> before.config.enabled && before.state
            != ZeroConfigState::OperaProxyActive,
        step != ZeroStep::Deactivate,
        !before.config.enabled ==> after.state == ZeroConfigState::DesyncOnly,
        before.config.enabled ==> after.state == before.state,
{
}

} // verus!
