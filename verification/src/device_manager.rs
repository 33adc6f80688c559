use vstd::prelude::*;

verus! {

/// An output device as the device manager describes it.
pub trait AudioDevice {
    /// The device's name.
    spec fn device_name(&self) -> Seq<char>;

    /// The device's identifier.
    spec fn device_id(&self) -> Seq<char>;

    /// Whether the device is the default one.
    spec fn device_is_default(&self) -> bool;

    /// The directions the device supports (`playback`, `capture`).
    spec fn device_capabilities(&self) -> Seq<Seq<char>>;

    fn get_name(&self) -> (r: String)
        ensures
            r@ == self.device_name();

    fn get_id(&self) -> (r: String)
        ensures
            r@ == self.device_id();

    fn is_default(&self) -> (r: bool)
        ensures
            r == self.device_is_default();

    fn get_capabilities(&self) -> (r: Vec<String>)
        ensures
            r@.map_values(|c: String| c@) == self.device_capabilities();
}

/// An audio API of the host system and its devices.
pub trait HostAudioApi {
    fn get_name(&self) -> String;
    fn get_devices(&self) -> Vec<DeviceInfo>;
    fn get_default_device(&self) -> DeviceInfo;
}

/// A device: its name, its identifier, whether it is the default one, and
/// the directions it supports.
pub struct DeviceInfo {
    pub name: String,
    pub id: String,
    pub is_default: bool,
    pub capabilities: Vec<String>,
}

impl DeviceInfo {
    pub fn new(name: &str, id: &str, is_default: bool, capabilities: Vec<String>) -> (d: Self)
        ensures
            d.name@ == name@,
            d.id@ == id@,
            d.is_default == is_default,
            d.capabilities@ == capabilities@,
    {
        DeviceInfo { name: String::from_str(name), id: String::from_str(id), is_default, capabilities }
    }
}

impl AudioDevice for DeviceInfo {
    open spec fn device_name(&self) -> Seq<char> {
        self.name@
    }

    open spec fn device_id(&self) -> Seq<char> {
        self.id@
    }

    open spec fn device_is_default(&self) -> bool {
        self.is_default
    }

    open spec fn device_capabilities(&self) -> Seq<Seq<char>> {
        self.capabilities@.map_values(|c: String| c@)
    }

    fn get_name(&self) -> String {
        self.name.clone()
    }

    fn get_id(&self) -> String {
        self.id.clone()
    }

    fn is_default(&self) -> bool {
        self.is_default
    }

    fn get_capabilities(&self) -> Vec<String> {
        let mut out: Vec<String> = Vec::new();
        let mut i: usize = 0;
        while i < self.capabilities.len()
            invariant
                i <= self.capabilities@.len(),
                out@.len() == i,
                forall|j: int| 0 <= j < i ==> (#[trigger] out@[j])@ == self.capabilities@[j]@,
            decreases self.capabilities@.len() - i,
        {
            let c = self.capabilities[i].clone();
            out.push(c);
            i = i + 1;
        }
        assert(out@.map_values(|c: String| c@) =~= self.capabilities@.map_values(|c: String| c@));
        out
    }
}

/// The audio APIs known to the player.
pub struct HostAudioApiManager {
    pub host_audio_apis: Vec<String>,
}

impl HostAudioApiManager {
    pub fn new() -> (m: Self)
        ensures
            m.host_audio_apis@.len() == 0,
    {
        HostAudioApiManager { host_audio_apis: Vec::new() }
    }

    /// The names of the audio APIs: only the default one.
    pub fn get_audio_apis(&self) -> (apis: Vec<String>)
        ensures
            apis@.len() == 1,
            apis@[0]@ == "default"@,
    {
        proof {
            reveal_strlit("default");
        }
        let mut apis = Vec::new();
        apis.push(String::from_str("default"));
        apis
    }

    /// The devices: a single default device, named and identified
    /// `default`, for playback and capture.
    pub fn get_devices(&self) -> (devices: Vec<DeviceInfo>)
        ensures
            devices@.len() == 1,
            devices@[0].name@ == "default"@,
            devices@[0].id@ == "default"@,
            devices@[0].is_default,
            devices@[0].capabilities@.len() == 2,
            devices@[0].capabilities@[0]@ == "playback"@,
            devices@[0].capabilities@[1]@ == "capture"@,
    {
        proof {
            reveal_strlit("default");
            reveal_strlit("playback");
            reveal_strlit("capture");
        }
        let mut caps = Vec::new();
        caps.push(String::from_str("playback"));
        caps.push(String::from_str("capture"));
        let mut devices = Vec::new();
        devices.push(DeviceInfo::new("default", "default", true, caps));
        devices
    }
}

} // verus!
