use keysounds::config::{
    parse_format, parse_host, resolve_output, Config, ConfigError, DeviceConfig, HostKind,
    ResolvedOutput, SampleFormatKind,
};

fn full_device_config() -> DeviceConfig {
    DeviceConfig {
        host: Some("wasapi".to_string()),
        device_name: Some("Speakers".to_string()),
        num_channels: Some(2),
        sample_rate: Some(48000),
        buffer_size: Some(256),
        format: Some("f32".to_string()),
    }
}

#[test]
fn default_config_uses_default_with_all_fields_absent() {
    let c = Config::default_config();
    assert!(c.use_default);
    assert!(c.device_config.host.is_none());
    assert!(c.device_config.device_name.is_none());
    assert!(c.device_config.num_channels.is_none());
    assert!(c.device_config.sample_rate.is_none());
    assert!(c.device_config.buffer_size.is_none());
    assert!(c.device_config.format.is_none());
}

#[test]
fn default_config_resolves_to_the_default_sink() {
    let r = resolve_output(Config::default_config());
    assert!(matches!(r, Ok(ResolvedOutput::UseDefault)));
}

#[test]
fn use_default_ignores_incomplete_device_fields() {
    let c = Config {
        use_default: true,
        device_config: DeviceConfig {
            host: None,
            device_name: None,
            num_channels: None,
            sample_rate: None,
            buffer_size: None,
            format: None,
        },
    };
    assert!(matches!(resolve_output(c), Ok(ResolvedOutput::UseDefault)));
}

#[test]
fn explicit_config_resolves_all_fields() {
    let c = Config { use_default: false, device_config: full_device_config() };
    match resolve_output(c) {
        Ok(ResolvedOutput::Explicit(out)) => {
            assert_eq!(out.host, HostKind::Wasapi);
            assert_eq!(out.device_name, "Speakers");
            assert_eq!(out.num_channels, 2);
            assert_eq!(out.sample_rate, 48000);
            assert_eq!(out.buffer_size, 256);
            assert_eq!(out.format, SampleFormatKind::F32);
        }
        other => panic!("expected an explicit output, got {:?}", other.is_ok()),
    }
}

#[test]
fn missing_fields_reported_in_order() {
    let mut dc = full_device_config();
    dc.host = None;
    let c = Config { use_default: false, device_config: dc };
    assert!(matches!(resolve_output(c), Err(ConfigError::HostNotSpecified)));

    let mut dc = full_device_config();
    dc.device_name = None;
    let c = Config { use_default: false, device_config: dc };
    assert!(matches!(resolve_output(c), Err(ConfigError::DeviceNameNotSpecified)));

    let mut dc = full_device_config();
    dc.buffer_size = None;
    let c = Config { use_default: false, device_config: dc };
    assert!(matches!(resolve_output(c), Err(ConfigError::BufferSizeNotSpecified)));

    let mut dc = full_device_config();
    dc.num_channels = None;
    let c = Config { use_default: false, device_config: dc };
    assert!(matches!(resolve_output(c), Err(ConfigError::NumChannelsNotSpecified)));

    let mut dc = full_device_config();
    dc.sample_rate = None;
    let c = Config { use_default: false, device_config: dc };
    assert!(matches!(resolve_output(c), Err(ConfigError::SampleRateNotSpecified)));

    let mut dc = full_device_config();
    dc.format = None;
    let c = Config { use_default: false, device_config: dc };
    assert!(matches!(resolve_output(c), Err(ConfigError::FormatNotSpecified)));
}

#[test]
fn buffer_size_missing_wins_over_missing_channels() {
    // Resolution checks the buffer size before the channel count.
    let mut dc = full_device_config();
    dc.buffer_size = None;
    dc.num_channels = None;
    let c = Config { use_default: false, device_config: dc };
    assert!(matches!(resolve_output(c), Err(ConfigError::BufferSizeNotSpecified)));
}

#[test]
fn unrecognized_host_and_format_are_fatal() {
    let mut dc = full_device_config();
    dc.host = Some("pulse".to_string());
    let c = Config { use_default: false, device_config: dc };
    assert!(matches!(resolve_output(c), Err(ConfigError::InvalidHost)));

    let mut dc = full_device_config();
    dc.format = Some("f16".to_string());
    let c = Config { use_default: false, device_config: dc };
    assert!(matches!(resolve_output(c), Err(ConfigError::InvalidFormat)));
}

#[test]
fn host_strings_are_case_insensitive() {
    assert_eq!(parse_host("asio"), Some(HostKind::Asio));
    assert_eq!(parse_host("ASIO"), Some(HostKind::Asio));
    assert_eq!(parse_host("AsIo"), Some(HostKind::Asio));
    assert_eq!(parse_host("wasapi"), Some(HostKind::Wasapi));
    assert_eq!(parse_host("WASAPI"), Some(HostKind::Wasapi));
    assert_eq!(parse_host("WaSaPi"), Some(HostKind::Wasapi));
    assert_eq!(parse_host("alsa"), None);
    assert_eq!(parse_host(""), None);
    assert_eq!(parse_host("asio "), None);
}

#[test]
fn format_strings_are_recognized() {
    assert_eq!(parse_format("i8"), Some(SampleFormatKind::I8));
    assert_eq!(parse_format("i16"), Some(SampleFormatKind::I16));
    assert_eq!(parse_format("i32"), Some(SampleFormatKind::I32));
    assert_eq!(parse_format("i64"), Some(SampleFormatKind::I64));
    assert_eq!(parse_format("u8"), Some(SampleFormatKind::U8));
    assert_eq!(parse_format("u16"), Some(SampleFormatKind::U16));
    assert_eq!(parse_format("u32"), Some(SampleFormatKind::U32));
    assert_eq!(parse_format("u64"), Some(SampleFormatKind::U64));
    assert_eq!(parse_format("f32"), Some(SampleFormatKind::F32));
    assert_eq!(parse_format("f64"), Some(SampleFormatKind::F64));
    assert_eq!(parse_format("F32"), Some(SampleFormatKind::F32));
    assert_eq!(parse_format("I16"), Some(SampleFormatKind::I16));
    assert_eq!(parse_format("f128"), None);
    assert_eq!(parse_format("8"), None);
    assert_eq!(parse_format(""), None);
}
