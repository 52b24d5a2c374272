//! The configuration record and its resolution rules.
//!
//! A configuration either asks for the system default output device or
//! names an explicit device. Resolution checks, in a fixed order, that
//! every field an explicit device needs is present and recognized, and
//! reports the first missing or invalid one; reading and writing the
//! configuration file is plain I/O done outside the library.

use vstd::prelude::*;
use vstd::string::StrSliceExecFns;

verus! {

/// Parameters of an explicit audio output device, each optional in the
/// persisted record.
pub struct DeviceConfig {
    pub host: Option<String>,
    pub device_name: Option<String>,
    pub num_channels: Option<u16>,
    pub sample_rate: Option<u32>,
    pub buffer_size: Option<u32>,
    pub format: Option<String>,
}

/// The persisted configuration record.
pub struct Config {
    pub use_default: bool,
    pub device_config: DeviceConfig,
}

impl Config {
    /// The configuration written when none exists yet: use the system
    /// default output device, with every device field absent.
    pub fn default_config() -> (c: Self)
        ensures
            c.use_default,
            c.device_config.host is None,
            c.device_config.device_name is None,
            c.device_config.num_channels is None,
            c.device_config.sample_rate is None,
            c.device_config.buffer_size is None,
            c.device_config.format is None,
    {
        Self {
            use_default: true,
            device_config: DeviceConfig {
                host: None,
                device_name: None,
                num_channels: None,
                sample_rate: None,
                buffer_size: None,
                format: None,
            },
        }
    }
}

/// The audio hosts an explicit configuration can name.
#[derive(Clone, Copy, Debug, PartialEq, Eq, Structural)]
pub enum HostKind {
    Asio,
    Wasapi,
}

/// The sample formats an explicit configuration can name.
#[derive(Clone, Copy, Debug, PartialEq, Eq, Structural)]
pub enum SampleFormatKind {
    I8,
    I16,
    I32,
    I64,
    U8,
    U16,
    U32,
    U64,
    F32,
    F64,
}

/// Whether `c` is the character `l` up to ASCII case: `l` is given in
/// lower case, and `c` matches it exactly or as its upper-case form
/// (32 below it in the ASCII table).
pub open spec fn spec_eq_ci(c: char, l: char) -> bool {
    c == l || (97 <= l as u32 <= 122 && c as u32 + 32 == l as u32)
}

fn eq_ci(c: char, l: char) -> (r: bool)
    ensures
        r == spec_eq_ci(c, l),
{
    let cu = c as u32;
    let lu = l as u32;
    cu == lu || (97 <= lu && lu <= 122 && cu == lu - 32)
}

/// The host string recognized, if any: `"asio"` or `"wasapi"`, each up
/// to ASCII case.
pub open spec fn spec_parse_host(s: Seq<char>) -> Option<HostKind> {
    if s.len() == 4 && spec_eq_ci(s[0], 'a') && spec_eq_ci(s[1], 's') && spec_eq_ci(s[2], 'i')
        && spec_eq_ci(s[3], 'o') {
        Some(HostKind::Asio)
    } else if s.len() == 6 && spec_eq_ci(s[0], 'w') && spec_eq_ci(s[1], 'a') && spec_eq_ci(
        s[2],
        's',
    ) && spec_eq_ci(s[3], 'a') && spec_eq_ci(s[4], 'p') && spec_eq_ci(s[5], 'i') {
        Some(HostKind::Wasapi)
    } else {
        None
    }
}

/// Recognize a host string, case-insensitively.
pub fn parse_host(s: &str) -> (r: Option<HostKind>)
    ensures
        r == spec_parse_host(s@),
{
    let n = s.unicode_len();
    if n == 4 && eq_ci(s.get_char(0), 'a') && eq_ci(s.get_char(1), 's') && eq_ci(
        s.get_char(2),
        'i',
    ) && eq_ci(s.get_char(3), 'o') {
        Some(HostKind::Asio)
    } else if n == 6 && eq_ci(s.get_char(0), 'w') && eq_ci(s.get_char(1), 'a') && eq_ci(
        s.get_char(2),
        's',
    ) && eq_ci(s.get_char(3), 'a') && eq_ci(s.get_char(4), 'p') && eq_ci(s.get_char(5), 'i') {
        Some(HostKind::Wasapi)
    } else {
        None
    }
}

/// The sample-format string recognized, if any: one of i8, i16, i32,
/// i64, u8, u16, u32, u64, f32, f64, each up to ASCII case in its
/// letter.
pub open spec fn spec_parse_format(s: Seq<char>) -> Option<SampleFormatKind> {
    if s.len() == 2 && spec_eq_ci(s[0], 'i') && s[1] == '8' {
        Some(SampleFormatKind::I8)
    } else if s.len() == 2 && spec_eq_ci(s[0], 'u') && s[1] == '8' {
        Some(SampleFormatKind::U8)
    } else if s.len() == 3 && spec_eq_ci(s[0], 'i') && s[1] == '1' && s[2] == '6' {
        Some(SampleFormatKind::I16)
    } else if s.len() == 3 && spec_eq_ci(s[0], 'i') && s[1] == '3' && s[2] == '2' {
        Some(SampleFormatKind::I32)
    } else if s.len() == 3 && spec_eq_ci(s[0], 'i') && s[1] == '6' && s[2] == '4' {
        Some(SampleFormatKind::I64)
    } else if s.len() == 3 && spec_eq_ci(s[0], 'u') && s[1] == '1' && s[2] == '6' {
        Some(SampleFormatKind::U16)
    } else if s.len() == 3 && spec_eq_ci(s[0], 'u') && s[1] == '3' && s[2] == '2' {
        Some(SampleFormatKind::U32)
    } else if s.len() == 3 && spec_eq_ci(s[0], 'u') && s[1] == '6' && s[2] == '4' {
        Some(SampleFormatKind::U64)
    } else if s.len() == 3 && spec_eq_ci(s[0], 'f') && s[1] == '3' && s[2] == '2' {
        Some(SampleFormatKind::F32)
    } else if s.len() == 3 && spec_eq_ci(s[0], 'f') && s[1] == '6' && s[2] == '4' {
        Some(SampleFormatKind::F64)
    } else {
        None
    }
}

/// Recognize a sample-format string, case-insensitively.
pub fn parse_format(s: &str) -> (r: Option<SampleFormatKind>)
    ensures
        r == spec_parse_format(s@),
{
    let n = s.unicode_len();
    if n == 2 {
        let c0 = s.get_char(0);
        let c1 = s.get_char(1);
        if eq_ci(c0, 'i') && c1 == '8' {
            Some(SampleFormatKind::I8)
        } else if eq_ci(c0, 'u') && c1 == '8' {
            Some(SampleFormatKind::U8)
        } else {
            None
        }
    } else if n == 3 {
        let c0 = s.get_char(0);
        let c1 = s.get_char(1);
        let c2 = s.get_char(2);
        if eq_ci(c0, 'i') && c1 == '1' && c2 == '6' {
            Some(SampleFormatKind::I16)
        } else if eq_ci(c0, 'i') && c1 == '3' && c2 == '2' {
            Some(SampleFormatKind::I32)
        } else if eq_ci(c0, 'i') && c1 == '6' && c2 == '4' {
            Some(SampleFormatKind::I64)
        } else if eq_ci(c0, 'u') && c1 == '1' && c2 == '6' {
            Some(SampleFormatKind::U16)
        } else if eq_ci(c0, 'u') && c1 == '3' && c2 == '2' {
            Some(SampleFormatKind::U32)
        } else if eq_ci(c0, 'u') && c1 == '6' && c2 == '4' {
            Some(SampleFormatKind::U64)
        } else if eq_ci(c0, 'f') && c1 == '3' && c2 == '2' {
            Some(SampleFormatKind::F32)
        } else if eq_ci(c0, 'f') && c1 == '6' && c2 == '4' {
            Some(SampleFormatKind::F64)
        } else {
            None
        }
    } else {
        None
    }
}

/// The parameters the output sink is built from, fully resolved.
pub struct ExplicitOutput {
    pub host: HostKind,
    pub device_name: String,
    pub num_channels: u16,
    pub sample_rate: u32,
    pub buffer_size: u32,
    pub format: SampleFormatKind,
}

/// What the resolved configuration asks the audio collaborator for:
/// the system default device, or an explicit one.
pub enum ResolvedOutput {
    UseDefault,
    Explicit(ExplicitOutput),
}

/// A fatal startup condition found while resolving an explicit device
/// configuration: the first field that is missing or unrecognized.
#[derive(Clone, Copy, Debug, PartialEq, Eq, Structural)]
pub enum ConfigError {
    HostNotSpecified,
    InvalidHost,
    DeviceNameNotSpecified,
    BufferSizeNotSpecified,
    NumChannelsNotSpecified,
    SampleRateNotSpecified,
    FormatNotSpecified,
    InvalidFormat,
}

/// The outcome configuration resolution owes for every input: the
/// default sink when asked for, otherwise the explicit parameters, or
/// the first missing or unrecognized field in the order host, host
/// validity, device name, buffer size, channel count, sample rate,
/// format, format validity.
pub open spec fn spec_resolve(c: Config) -> Result<ResolvedOutput, ConfigError> {
    if c.use_default {
        Ok(ResolvedOutput::UseDefault)
    } else if c.device_config.host is None {
        Err(ConfigError::HostNotSpecified)
    } else if spec_parse_host(c.device_config.host.unwrap()@) is None {
        Err(ConfigError::InvalidHost)
    } else if c.device_config.device_name is None {
        Err(ConfigError::DeviceNameNotSpecified)
    } else if c.device_config.buffer_size is None {
        Err(ConfigError::BufferSizeNotSpecified)
    } else if c.device_config.num_channels is None {
        Err(ConfigError::NumChannelsNotSpecified)
    } else if c.device_config.sample_rate is None {
        Err(ConfigError::SampleRateNotSpecified)
    } else if c.device_config.format is None {
        Err(ConfigError::FormatNotSpecified)
    } else if spec_parse_format(c.device_config.format.unwrap()@) is None {
        Err(ConfigError::InvalidFormat)
    } else {
        Ok(
            ResolvedOutput::Explicit(
                ExplicitOutput {
                    host: spec_parse_host(c.device_config.host.unwrap()@).unwrap(),
                    device_name: c.device_config.device_name.unwrap(),
                    num_channels: c.device_config.num_channels.unwrap(),
                    sample_rate: c.device_config.sample_rate.unwrap(),
                    buffer_size: c.device_config.buffer_size.unwrap(),
                    format: spec_parse_format(c.device_config.format.unwrap()@).unwrap(),
                },
            ),
        )
    }
}

/// Resolve a configuration record into the parameters the output sink
/// is built from, failing on the first missing or unrecognized field.
pub fn resolve_output(c: Config) -> (r: Result<ResolvedOutput, ConfigError>)
    ensures
        r == spec_resolve(c),
{
    if c.use_default {
        return Ok(ResolvedOutput::UseDefault);
    }
    let dc = c.device_config;
    let host_s = match dc.host {
        Some(h) => h,
        None => {
            return Err(ConfigError::HostNotSpecified);
        },
    };
    let host = match parse_host(host_s.as_str()) {
        Some(h) => h,
        None => {
            return Err(ConfigError::InvalidHost);
        },
    };
    let device_name = match dc.device_name {
        Some(n) => n,
        None => {
            return Err(ConfigError::DeviceNameNotSpecified);
        },
    };
    let buffer_size = match dc.buffer_size {
        Some(b) => b,
        None => {
            return Err(ConfigError::BufferSizeNotSpecified);
        },
    };
    let num_channels = match dc.num_channels {
        Some(n) => n,
        None => {
            return Err(ConfigError::NumChannelsNotSpecified);
        },
    };
    let sample_rate = match dc.sample_rate {
        Some(rate) => rate,
        None => {
            return Err(ConfigError::SampleRateNotSpecified);
        },
    };
    let format_s = match dc.format {
        Some(f) => f,
        None => {
            return Err(ConfigError::FormatNotSpecified);
        },
    };
    let format = match parse_format(format_s.as_str()) {
        Some(f) => f,
        None => {
            return Err(ConfigError::InvalidFormat);
        },
    };
    Ok(
        ResolvedOutput::Explicit(
            ExplicitOutput { host, device_name, num_channels, sample_rate, buffer_size, format },
        ),
    )
}

} // verus!
