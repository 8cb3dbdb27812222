use vstd::prelude::*;

verus! {

/// Largest volume level, in thousandths: it stands for full volume.
pub const VOLUME_MAX: u32 = 1000;

/// Clamps a requested volume, in thousandths, to `[0, VOLUME_MAX]`.
pub open spec fn clamped_volume(v: int) -> int {
    if v < 0 {
        0
    } else if v > VOLUME_MAX {
        VOLUME_MAX as int
    } else {
        v
    }
}

/// Every requested volume is taken: inside `[0, VOLUME_MAX]` as it is, outside
/// at the nearest bound.
pub proof fn lemma_volume_clamped(v: int)
    ensures
        0 <= clamped_volume(v) <= VOLUME_MAX,
        0 <= v <= VOLUME_MAX ==> clamped_volume(v) == v,
        v < 0 ==> clamped_volume(v) == 0,
        v > VOLUME_MAX ==> clamped_volume(v) == VOLUME_MAX,
{
}

/// Clamps a requested volume, in thousandths, to the range the output accepts;
/// no request is rejected.
pub fn clamp_volume(v: i64) -> (r: u32)
    ensures
        r as int == clamped_volume(v as int),
        r <= VOLUME_MAX,
{
    if v < 0 {
        0
    } else if v > VOLUME_MAX as i64 {
        VOLUME_MAX
    } else {
        v as u32
    }
}

/// User and device settings.
pub struct Config {
    pub user_access_key: String,
    pub device_name: String,
    pub access_token: String,
    /// Playback volume in thousandths of full volume.
    pub volume: u32,
}

/// The settings as mathematical values.
pub ghost struct ConfigView {
    pub user_access_key: Seq<char>,
    pub device_name: Seq<char>,
    pub access_token: Seq<char>,
    pub volume: u32,
}

impl View for Config {
    type V = ConfigView;

    open spec fn view(&self) -> ConfigView {
        ConfigView {
            user_access_key: self.user_access_key@,
            device_name: self.device_name@,
            access_token: self.access_token@,
            volume: self.volume,
        }
    }
}

impl Config {
    /// Settings of a fresh installation: no credentials, full volume.
    pub fn initial() -> (r: Config)
        ensures
            r@.user_access_key.len() == 0,
            r@.device_name.len() == 0,
            r@.access_token.len() == 0,
            r@.volume == VOLUME_MAX,
    {
        Config {
            user_access_key: String::new(),
            device_name: String::new(),
            access_token: String::new(),
            volume: VOLUME_MAX,
        }
    }

    /// A copy of the settings.
    pub fn snapshot(&self) -> (r: Config)
        ensures
            r@ == self@,
    {
        Config {
            user_access_key: self.user_access_key.clone(),
            device_name: self.device_name.clone(),
            access_token: self.access_token.clone(),
            volume: self.volume,
        }
    }

    /// The settings with another user access key, the rest kept.
    pub fn with_access_key(&self, key: String) -> (r: Config)
        ensures
            r@ == (ConfigView { user_access_key: key@, ..self@ }),
    {
        let mut c = self.snapshot();
        c.user_access_key = key;
        c
    }

    /// The settings of a registered device: its name and the token the server
    /// issued for it, the rest kept.
    pub fn with_device(&self, name: String, token: String) -> (r: Config)
        ensures
            r@ == (ConfigView { device_name: name@, access_token: token@, ..self@ }),
    {
        let mut c = self.snapshot();
        c.device_name = name;
        c.access_token = token;
        c
    }

    /// The request that registers a device of the given name for this user.
    pub fn device_request(&self, device_name: String) -> (r: DeviceRequest)
        ensures
            r.user_access_key@ == self.user_access_key@,
            r.device_name@ == device_name@,
    {
        DeviceRequest { user_access_key: self.user_access_key.clone(), device_name }
    }

    /// The settings with the volume clamped to `[0, VOLUME_MAX]`, the rest kept.
    pub fn with_volume(&self, level: i64) -> (r: Config)
        ensures
            r@ == (ConfigView { volume: clamped_volume(level as int) as u32, ..self@ }),
    {
        let mut c = self.snapshot();
        c.volume = clamp_volume(level);
        c
    }
}

/// What the server needs to register a device.
pub struct DeviceRequest {
    pub user_access_key: String,
    pub device_name: String,
}

/// Why an update of the settings did not take effect.
#[derive(Clone, Copy, Debug, PartialEq, Eq, Structural)]
pub enum ConfigError {
    /// Writing the new settings to durable storage failed.
    PersistFailed,
}

/// The shared settings. Whoever holds it exclusively may read a snapshot or
/// replace the value; an update takes effect only once it is persisted.
pub struct ConfigStore {
    current: Config,
}

impl View for ConfigStore {
    type V = ConfigView;

    closed spec fn view(&self) -> ConfigView {
        self.current@
    }
}

impl ConfigStore {
    pub fn new(initial: Config) -> (r: ConfigStore)
        ensures
            r@ == initial@,
    {
        ConfigStore { current: initial }
    }

    /// A snapshot of the current settings; never fails.
    pub fn read(&self) -> (r: Config)
        ensures
            r@ == self@,
    {
        self.current.snapshot()
    }

    /// Replaces the settings by `new`, given the outcome of persisting `new`.
    /// On success the store holds `new`; on failure it is left as it was and
    /// the failure is returned. Nothing in between is ever held.
    pub fn update(&mut self, new: Config, persisted: Result<(), ConfigError>) -> (r: Result<
        (),
        ConfigError,
    >)
        ensures
            r == persisted,
            r is Ok ==> final(self)@ == new@,
            r is Err ==> final(self)@ == old(self)@,
            final(self)@ == old(self)@ || final(self)@ == new@,
    {
        if persisted.is_ok() {
            self.current = new;
        }
        persisted
    }
}

} // verus!
