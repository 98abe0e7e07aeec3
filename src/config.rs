//! What the device is asked to do with its radio.
use vstd::prelude::*;

verus! {

/// Shortest passphrase that WPA2 accepts for a hosted network.
pub const MIN_AP_PASSPHRASE_LEN: usize = 8;

/// Whether the radio joins an existing network or hosts its own.
#[derive(Clone, Copy, Debug, PartialEq, Eq, Structural)]
pub enum Mode {
    Station,
    AccessPoint,
}

/// Values read from the device's configuration source.
#[derive(Clone, Debug)]
pub struct Config {
    pub wifi_ssid: String,
    pub wifi_psk: String,
    pub wifi_ap: bool,
}

/// Everything a bring-up attempt needs: the network, its secret, the mode,
/// and how long each blocking phase may take.
#[derive(Clone, Debug)]
pub struct BringUpConfig {
    pub ssid: String,
    /// Empty for an open network.
    pub passphrase: String,
    pub mode: Mode,
    /// Bound, in milliseconds, on joining the named network.
    pub association_timeout_ms: u64,
    /// Bound, in milliseconds, on obtaining an address once joined.
    pub address_timeout_ms: u64,
}

/// A station needs a network name; a hosted network that is secured needs a
/// passphrase of at least the protocol's minimum length.
pub open spec fn valid_settings(ssid: Seq<char>, passphrase: Seq<char>, mode: Mode) -> bool {
    &&& mode == Mode::Station ==> ssid.len() > 0
    &&& mode == Mode::AccessPoint && passphrase.len() > 0 ==> passphrase.len()
        >= MIN_AP_PASSPHRASE_LEN
}

impl Default for Config {
    fn default() -> (r: Config)
        ensures
            r.wifi_ssid@ == Seq::<char>::empty(),
            r.wifi_psk@ == Seq::<char>::empty(),
            !r.wifi_ap,
    {
        Config { wifi_ssid: String::new(), wifi_psk: String::new(), wifi_ap: false }
    }
}

impl Config {
    pub open spec fn mode_spec(&self) -> Mode {
        if self.wifi_ap {
            Mode::AccessPoint
        } else {
            Mode::Station
        }
    }

    /// The mode that the configuration selects.
    pub fn mode(&self) -> (r: Mode)
        ensures
            r == self.mode_spec(),
    {
        if self.wifi_ap {
            Mode::AccessPoint
        } else {
            Mode::Station
        }
    }

    /// Settings for one bring-up attempt, with the given bounds on the
    /// blocking phases.
    pub fn to_bring_up(&self, association_timeout_ms: u64, address_timeout_ms: u64) -> (r:
        BringUpConfig)
        ensures
            r.ssid@ == self.wifi_ssid@,
            r.passphrase@ == self.wifi_psk@,
            r.mode == self.mode_spec(),
            r.association_timeout_ms == association_timeout_ms,
            r.address_timeout_ms == address_timeout_ms,
    {
        BringUpConfig {
            ssid: self.wifi_ssid.clone(),
            passphrase: self.wifi_psk.clone(),
            mode: self.mode(),
            association_timeout_ms,
            address_timeout_ms,
        }
    }
}

impl BringUpConfig {
    pub open spec fn valid(&self) -> bool {
        valid_settings(self.ssid@, self.passphrase@, self.mode)
    }

    /// Whether these settings may be applied to the radio at all.
    pub fn is_valid(&self) -> (r: bool)
        ensures
            r == self.valid(),
    {
        match self.mode {
            Mode::Station => self.ssid.as_str().unicode_len() > 0,
            Mode::AccessPoint => {
                let n = self.passphrase.as_str().unicode_len();
                n == 0 || n >= MIN_AP_PASSPHRASE_LEN
            },
        }
    }
}

} // verus!
