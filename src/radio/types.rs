use vstd::prelude::*;

verus! {

#[derive(Debug, Clone, Copy, PartialEq, Eq, Structural)]
pub enum Bandwidth {
    _125KHZ,
    _250KHZ,
    _500KHZ,
}

#[derive(Debug, Clone, Copy, PartialEq, Eq, Structural)]
pub enum SpreadingFactor {
    _7,
    _8,
    _9,
    _10,
    _11,
    _12,
}

#[derive(Debug, Clone, Copy, PartialEq, Eq, Structural)]
pub enum CodingRate {
    _4_5,
    _4_6,
    _4_7,
    _4_8,
}

#[derive(Debug, Clone, Copy, PartialEq, Eq, Structural)]
pub struct RfConfig {
    pub frequency: u32,
    pub bandwidth: Bandwidth,
    pub spreading_factor: SpreadingFactor,
    pub coding_rate: CodingRate,
}

#[derive(Debug, Clone, Copy, PartialEq, Eq, Structural)]
pub struct TxConfig {
    pub pw: i8,
    pub rf: RfConfig,
}

/// Signal quality of a received packet.
#[derive(Debug, Clone, Copy, PartialEq, Eq, Structural)]
pub struct RxQuality {
    rssi: i16,
    snr: i8,
}

impl RxQuality {
    pub closed spec fn spec_rssi(&self) -> i16 {
        self.rssi
    }

    pub closed spec fn spec_snr(&self) -> i8 {
        self.snr
    }

    pub fn new(rssi: i16, snr: i8) -> (r: RxQuality)
        ensures
            r.spec_rssi() == rssi,
            r.spec_snr() == snr,
    {
        RxQuality { rssi, snr }
    }

    pub fn rssi(&self) -> (r: i16)
        ensures
            r == self.spec_rssi(),
    {
        self.rssi
    }

    pub fn snr(&self) -> (r: i8)
        ensures
            r == self.spec_snr(),
    {
        self.snr
    }
}

} // verus!
