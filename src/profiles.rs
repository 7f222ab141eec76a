use vstd::prelude::*;

use crate::engine::{initial, Transaction};
use crate::DhtError;

verus! {

/// A decoded reading.
#[derive(Debug, PartialEq, Eq)]
pub struct DhtResult<T, H> {
    pub temperature: T,
    pub humidity: H,
}

/// Start-signal length, in ticks, of the DHT22 family.
pub const DHT22_START_SIGNAL_LENGTH: u32 = 1;

/// Start-signal length, in ticks, of the DHT11.
pub const DHT11_START_SIGNAL_LENGTH: u32 = 18;

/// DHT22 temperature in tenths of a degree: bit 15 is a sign flag, bits 0 to 14 the magnitude.
pub open spec fn dht22_temperature(raw: u16) -> int {
    let magnitude = raw % 0x8000;
    if raw >= 0x8000 {
        -magnitude
    } else {
        magnitude as int
    }
}

/// Temperature in tenths of a degree for the DHT22 variant that sends it in two's complement.
pub open spec fn dht22_type2_temperature(raw: u16) -> int {
    if raw >= 0x8000 {
        raw - 0x10000
    } else {
        raw as int
    }
}

/// DHT11 temperature in whole degrees: bits 8 to 14, replaced by `0xFF` less themselves when
/// bit 15 is set.
pub open spec fn dht11_temperature(raw: u16) -> int {
    let whole = (raw % 0x8000) / 0x100;
    if raw >= 0x8000 {
        0xFF - whole
    } else {
        whole as int
    }
}

/// DHT11 humidity in whole percent: the high byte.
pub open spec fn dht11_humidity(raw: u16) -> int {
    raw as int / 0x100
}

/// What a DHT22 read yields from the transaction's outcome: humidity and temperature in
/// tenths, or the transaction's error unchanged.
pub open spec fn dht22_read(reading: Result<(u16, u16), DhtError>) -> Result<DhtResult<i16, u16>, DhtError> {
    match reading {
        Ok((t, h)) => Ok(DhtResult { temperature: dht22_temperature(t) as i16, humidity: h }),
        Err(e) => Err(e),
    }
}

/// What a read of the two's-complement DHT22 variant yields from the transaction's outcome.
pub open spec fn dht22_type2_read(reading: Result<(u16, u16), DhtError>) -> Result<DhtResult<i16, u16>, DhtError> {
    match reading {
        Ok((t, h)) => Ok(DhtResult { temperature: dht22_type2_temperature(t) as i16, humidity: h }),
        Err(e) => Err(e),
    }
}

/// What a DHT11 read yields from the transaction's outcome.
pub open spec fn dht11_read(reading: Result<(u16, u16), DhtError>) -> Result<DhtResult<u16, u16>, DhtError> {
    match reading {
        Ok((t, h)) => Ok(DhtResult { temperature: dht11_temperature(t) as u16, humidity: dht11_humidity(h) as u16 }),
        Err(e) => Err(e),
    }
}

/// A DHT22 (sign-and-magnitude temperature).
#[derive(Debug, Clone, Copy, PartialEq, Eq)]
pub struct Dht22 {}

/// A DHT22 whose temperature comes in two's complement.
#[derive(Debug, Clone, Copy, PartialEq, Eq)]
pub struct Dht22Type2 {}

/// A DHT11 (whole degrees and percent).
#[derive(Debug, Clone, Copy, PartialEq, Eq)]
pub struct Dht11 {}

impl Dht22 {
    pub fn new() -> (r: Dht22) {
        Dht22 {}
    }

    /// Begins a read transaction with this model's start-signal length.
    pub fn begin_read(&self) -> (t: Transaction)
        ensures
            t == initial(DHT22_START_SIGNAL_LENGTH),
    {
        Transaction::begin(DHT22_START_SIGNAL_LENGTH)
    }

    /// Decodes the transaction's outcome: temperature and humidity in tenths.
    pub fn read(&self, reading: Result<(u16, u16), DhtError>) -> (r: Result<DhtResult<i16, u16>, DhtError>)
        ensures
            r == dht22_read(reading),
    {
        match reading {
            Ok((raw_temp, raw_hum)) => {
                proof {
                    assert(raw_temp & 0x7FFF == raw_temp % 0x8000) by (bit_vector);
                    assert((raw_temp & 0x8000 > 0) == (raw_temp >= 0x8000)) by (bit_vector);
                }
                let magnitude = (raw_temp & 0x7FFF) as i16;
                let temperature = if (raw_temp & 0x8000) > 0 { -magnitude } else { magnitude };
                Ok(DhtResult { temperature, humidity: raw_hum })
            },
            Err(e) => Err(e),
        }
    }
}

impl Dht22Type2 {
    pub fn new() -> (r: Dht22Type2) {
        Dht22Type2 {}
    }

    /// Begins a read transaction with this model's start-signal length.
    pub fn begin_read(&self) -> (t: Transaction)
        ensures
            t == initial(DHT22_START_SIGNAL_LENGTH),
    {
        Transaction::begin(DHT22_START_SIGNAL_LENGTH)
    }

    /// Decodes the transaction's outcome: temperature and humidity in tenths.
    pub fn read(&self, reading: Result<(u16, u16), DhtError>) -> (r: Result<DhtResult<i16, u16>, DhtError>)
        ensures
            r == dht22_type2_read(reading),
    {
        match reading {
            Ok((raw_temp, raw_hum)) => {
                let temperature = if raw_temp >= 0x8000 {
                    (raw_temp as i32 - 0x10000) as i16
                } else {
                    raw_temp as i16
                };
                Ok(DhtResult { temperature, humidity: raw_hum })
            },
            Err(e) => Err(e),
        }
    }
}

impl Dht11 {
    pub fn new() -> (r: Dht11) {
        Dht11 {}
    }

    /// Begins a read transaction with this model's start-signal length.
    pub fn begin_read(&self) -> (t: Transaction)
        ensures
            t == initial(DHT11_START_SIGNAL_LENGTH),
    {
        Transaction::begin(DHT11_START_SIGNAL_LENGTH)
    }

    /// Decodes the transaction's outcome: temperature in whole degrees, humidity in whole
    /// percent.
    pub fn read(&self, reading: Result<(u16, u16), DhtError>) -> (r: Result<DhtResult<u16, u16>, DhtError>)
        ensures
            r == dht11_read(reading),
    {
        match reading {
            Ok((t, h)) => {
                proof {
                    assert((t & 0x7FFF) >> 8 == (t % 0x8000) / 0x100) by (bit_vector);
                    assert((t & 0x7FFF) >> 8 <= 0x7F) by (bit_vector);
                    assert((t & 0x8000 > 0) == (t >= 0x8000)) by (bit_vector);
                    assert(h >> 8 == h / 0x100) by (bit_vector);
                }
                let mut temperature = (t & 0x7FFF) >> 8;
                if (t & 0x8000) > 0 {
                    temperature = 0xFF - temperature;
                }
                Ok(DhtResult { temperature, humidity: h >> 8 })
            },
            Err(e) => Err(e),
        }
    }
}

/// Decoding holds no state: equal transaction outcomes decode to equal results, under each
/// of the three models, however often and on whichever value of the model it is done.
pub proof fn decoding_is_pure(a: Result<(u16, u16), DhtError>, b: Result<(u16, u16), DhtError>)
    requires
        a == b,
    ensures
        dht22_read(a) == dht22_read(b),
        dht22_type2_read(a) == dht22_type2_read(b),
        dht11_read(a) == dht11_read(b),
{
}

} // verus!
