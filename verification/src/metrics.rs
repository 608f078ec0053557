//! The process-wide counters the service exposes.
//!
//! Three custom metrics accompany the registry: how many times the server
//! list was read, how many game servers are connected, and how many
//! players they report in total. The registry itself knows nothing of
//! them: the driver of a connection feeds each step's effect to the
//! counters as a side hook. The gauges clamp at the ends of their range
//! instead of overflowing.

use vstd::prelude::*;
use crate::protocol::StepEffect;

verus! {

/// `x` clipped to the range of a gauge.
pub open spec fn clamp_gauge(x: int) -> int {
    if x > i128::MAX as int {
        i128::MAX as int
    } else if x < i128::MIN as int {
        i128::MIN as int
    } else {
        x
    }
}

/// Move a gauge by `d`, clamping at the ends of its range.
fn gauge_add(x: i128, d: i128) -> (r: i128)
    ensures
        r == clamp_gauge(x + d),
{
    if d >= 0 && x > i128::MAX - d {
        i128::MAX
    } else if d < 0 && x < i128::MIN - d {
        i128::MIN
    } else {
        x + d
    }
}

/// The custom metrics: a counter of server-list reads, a gauge of
/// connected game servers, and a gauge of the players they report.
pub struct Metrics {
    pub server_list_requests: u64,
    pub connected_game_servers: i128,
    pub in_game_players: i128,
}

/// The freshly registered custom metrics, each starting at zero.
pub fn register_custom_metrics() -> (m: Metrics)
    ensures
        m.server_list_requests == 0,
        m.connected_game_servers == 0,
        m.in_game_players == 0,
{
    Metrics { server_list_requests: 0, connected_game_servers: 0, in_game_players: 0 }
}

impl Metrics {
    /// Count one read of the server list; the counter stops at its top
    /// rather than wrap.
    pub fn record_list_request(&mut self)
        ensures
            final(self).server_list_requests == if old(self).server_list_requests < u64::MAX {
                old(self).server_list_requests + 1
            } else {
                u64::MAX as int
            },
            final(self).connected_game_servers == old(self).connected_game_servers,
            final(self).in_game_players == old(self).in_game_players,
    {
        if self.server_list_requests < u64::MAX {
            self.server_list_requests = self.server_list_requests + 1;
        }
    }

    /// Feed one step's effect into the gauges: a registration connects a
    /// server, a deregistration disconnects one and takes its players with
    /// it, and a player update moves the player gauge by the difference.
    /// Every other effect leaves the metrics alone.
    pub fn apply_step_effect(&mut self, eff: &StepEffect)
        ensures
            final(self).server_list_requests == old(self).server_list_requests,
            eff is Registered ==> final(self).connected_game_servers == clamp_gauge(
                old(self).connected_game_servers + 1,
            ) && final(self).in_game_players == old(self).in_game_players,
            eff is Deregistered ==> final(self).connected_game_servers == clamp_gauge(
                old(self).connected_game_servers - 1,
            ) && final(self).in_game_players == clamp_gauge(
                old(self).in_game_players - match eff->removed {
                    Some(g) => g.players as int,
                    None => 0int,
                },
            ),
            eff is PlayersUpdated ==> final(self).connected_game_servers == old(self).connected_game_servers && final(self).in_game_players == clamp_gauge(
                old(self).in_game_players + eff->after - eff->before,
            ),
            !(eff is Registered) && !(eff is Deregistered) && !(eff is PlayersUpdated) ==> final(self).connected_game_servers == old(self).connected_game_servers && final(self).in_game_players == old(self).in_game_players,
    {
        match eff {
            StepEffect::Registered { .. } => {
                self.connected_game_servers = gauge_add(self.connected_game_servers, 1);
            },
            StepEffect::Deregistered { removed } => {
                self.connected_game_servers = gauge_add(self.connected_game_servers, -1);
                let gone: i128 = match removed {
                    Some(g) => g.players as i128,
                    None => 0,
                };
                self.in_game_players = gauge_add(self.in_game_players, -gone);
            },
            StepEffect::PlayersUpdated { before, after } => {
                let diff: i128 = (*after as i128) - (*before as i128);
                self.in_game_players = gauge_add(self.in_game_players, diff);
            },
            _ => {},
        }
    }
}

} // verus!
