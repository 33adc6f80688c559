use vstd::prelude::*;
use crate::text::str_equals;

verus! {

/// The audio host the player sends its output through.
#[derive(Clone, Copy, Debug, PartialEq, Eq, Structural)]
pub enum Host {
    Alsa(crate::alsa::Host),
    PipeWire(crate::pipewire::Host),
}

/// The host used when none is named: PipeWire when its daemon is running
/// (its socket exists), else ALSA.
pub open spec fn default_host_spec(high_priority_mode: bool, pipewire_running: bool) -> Host {
    if pipewire_running {
        Host::PipeWire(crate::pipewire::Host)
    } else {
        Host::Alsa(crate::alsa::Host { high_priority_mode })
    }
}

impl Host {
    /// The host named `name` (`alsa` or `pipewire`); any other name picks
    /// the default host. `pipewire_running` says whether the PipeWire socket
    /// exists.
    pub fn new(name: &str, high_priority_mode: bool, pipewire_running: bool) -> (h: Self)
        ensures
            h == if name@ == "alsa"@ {
                Host::Alsa(crate::alsa::Host { high_priority_mode })
            } else if name@ == "pipewire"@ {
                Host::PipeWire(crate::pipewire::Host)
            } else {
                default_host_spec(high_priority_mode, pipewire_running)
            },
    {
        proof {
            reveal_strlit("alsa");
            reveal_strlit("pipewire");
        }
        if str_equals(name, "alsa") {
            Host::Alsa(crate::alsa::Host::new(high_priority_mode))
        } else if str_equals(name, "pipewire") {
            Host::PipeWire(crate::pipewire::Host)
        } else {
            Host::default_host(high_priority_mode, pipewire_running)
        }
    }

    pub fn default_host(high_priority_mode: bool, pipewire_running: bool) -> (h: Self)
        ensures
            h == default_host_spec(high_priority_mode, pipewire_running),
    {
        if pipewire_running {
            Host::PipeWire(crate::pipewire::Host)
        } else {
            Host::Alsa(crate::alsa::Host::new(high_priority_mode))
        }
    }
}

/// `{runtime_dir}/pipewire-0`, the socket of a running PipeWire daemon.
pub fn pipewire_socket_path(runtime_dir: &str) -> (p: String)
    ensures
        p@ == runtime_dir@ + "/pipewire-0"@,
{
    let mut p = String::from_str(runtime_dir);
    p.append("/pipewire-0");
    proof {
        reveal_strlit("/pipewire-0");
    }
    p
}

} // verus!
