use rtl_tcp::commands::{set_frequency_packet, set_gain_packets, set_sample_rate_packet};
use rtl_tcp::text::{append_byte_list, append_decimal};
use rtl_tcp::{
    bytes, configure_device, parse_handshake, protocol, Error, Gain, Packet, RtlTcpConfig,
    TunerType,
};

fn handshake(tuner: u32, gains: u32) -> [u8; 12] {
    let t = tuner.to_be_bytes();
    let g = gains.to_be_bytes();
    [
        b'R', b'T', b'L', b'0', t[0], t[1], t[2], t[3], g[0], g[1], g[2], g[3],
    ]
}

fn packet(cmd: u8, value: u32) -> Packet {
    Packet { cmd, value }
}

#[test]
fn test_tuner_type_parsing() {
    assert_eq!(TunerType::from_u32(0), TunerType::Unknown);
    assert_eq!(TunerType::from_u32(1), TunerType::E4000);
    assert_eq!(TunerType::from_u32(5), TunerType::R820T);
    assert_eq!(TunerType::from_u32(6), TunerType::R828D);
    assert_eq!(TunerType::from_u32(99), TunerType::Unknown);
}

#[test]
fn test_handshake_parsing() {
    // Valid handshake: RTL0 + tuner_type=5 (R820T) + gain_count=29
    let handshake: [u8; 12] = [
        b'R', b'T', b'L', b'0', // Magic
        0, 0, 0, 5, // tuner_type = 5 (R820T)
        0, 0, 0, 29, // gain_count = 29
    ];

    let info = parse_handshake(&handshake).unwrap();
    assert_eq!(info.tuner_type, TunerType::R820T);
    assert_eq!(info.gain_count, 29);
}

#[test]
fn test_handshake_invalid_magic() {
    let handshake: [u8; 12] = [
        b'X', b'X', b'X', b'X', // Invalid magic
        0, 0, 0, 5, 0, 0, 0, 29,
    ];

    let result = parse_handshake(&handshake);
    assert!(result.is_err());
}

#[test]
fn test_config_default() {
    let config = RtlTcpConfig::default();
    assert_eq!(config.host, "127.0.0.1");
    assert_eq!(config.port, 1234);
    assert_eq!(config.sample_rate, 2_048_000);
}

#[test]
fn config_default_other_fields() {
    let config = RtlTcpConfig::default();
    assert_eq!(config.center_freq, 100_000_000);
    assert_eq!(config.gain, Gain::Auto);
    assert!(!config.bias_tee);
    assert_eq!(config.ppm_correction, 0);
    assert_eq!(config.clone(), config);
}

#[test]
fn magic_spells_rtl0() {
    assert_eq!(protocol::MAGIC, b"RTL0");
    assert_eq!(protocol::DEFAULT_BUF_SIZE, 16384);
    assert_eq!(protocol::CONNECT_TIMEOUT_SECS, 10);
    assert_eq!(protocol::CMD_SET_BIAS_TEE, 0x0E);
}

#[test]
fn tuner_numbers_round_trip() {
    let tuners = [
        TunerType::Unknown,
        TunerType::E4000,
        TunerType::FC0012,
        TunerType::FC0013,
        TunerType::FC2580,
        TunerType::R820T,
        TunerType::R828D,
    ];
    for (number, tuner) in tuners.iter().enumerate() {
        assert_eq!(tuner.as_u32(), number as u32);
        assert_eq!(*tuner as u32, number as u32);
        assert_eq!(TunerType::from_u32(tuner.as_u32()), *tuner);
    }
    assert_eq!(TunerType::from_u32(7), TunerType::Unknown);
    assert_eq!(TunerType::from_u32(u32::MAX), TunerType::Unknown);
}

#[test]
fn handshake_numbers_are_big_endian() {
    let info = parse_handshake(&handshake(6, 0x0102_0304)).unwrap();
    assert_eq!(info.tuner_type, TunerType::R828D);
    assert_eq!(info.gain_count, 0x0102_0304);
    let info = parse_handshake(&handshake(0x0500_0000, u32::MAX)).unwrap();
    assert_eq!(info.tuner_type, TunerType::Unknown);
    assert_eq!(info.gain_count, u32::MAX);
    assert_eq!(info.clone().gain_count, u32::MAX);
}

#[test]
fn invalid_magic_message_lists_the_bytes() {
    for i in 0..4 {
        let mut data = handshake(5, 29);
        data[i] = 200;
        let Error::Device(message) = parse_handshake(&data).unwrap_err();
        assert_eq!(
            message,
            format!(
                "Invalid rtl_tcp magic: expected 'RTL0', got {:?}",
                &data[0..4]
            )
        );
    }
    let error = parse_handshake(&[0, 9, 10, 255, 0, 0, 0, 5, 0, 0, 0, 29]).unwrap_err();
    assert_eq!(
        error.message(),
        "Invalid rtl_tcp magic: expected 'RTL0', got [0, 9, 10, 255]"
    );
}

#[test]
fn address_is_host_and_port() {
    let mut config = RtlTcpConfig::default();
    assert_eq!(config.address(), "127.0.0.1:1234");
    config.host = "192.168.1.100".to_string();
    for port in [0u16, 7, 10, 80, 999, 1000, 65535] {
        config.port = port;
        assert_eq!(config.address(), format!("192.168.1.100:{}", port));
    }
}

#[test]
fn decimal_and_byte_list_texts() {
    let mut text = String::from("n=");
    append_decimal(&mut text, 10203);
    assert_eq!(text, "n=10203");
    let mut text = String::new();
    append_byte_list(&mut text, &[]);
    append_byte_list(&mut text, &[7]);
    append_byte_list(&mut text, &[1, 20, 255]);
    assert_eq!(text, "[][7][1, 20, 255]");
}

#[test]
fn big_endian_round_trip() {
    for value in [0u32, 1, 255, 256, 0x0102_0304, 0x8000_0000, u32::MAX] {
        assert_eq!(bytes::u32_to_be_bytes(value), value.to_be_bytes());
        assert_eq!(bytes::u32_from_be_bytes(value.to_be_bytes()), value);
    }
}

#[test]
fn packet_bytes() {
    assert_eq!(
        set_frequency_packet(1_090_000_000).to_bytes(),
        [0x01, 0x40, 0xF8, 0x14, 0x80]
    );
    assert_eq!(
        set_sample_rate_packet(2_400_000).to_bytes(),
        [0x02, 0x00, 0x24, 0x9F, 0x00]
    );
    assert_eq!(packet(0xFF, u32::MAX).to_bytes(), [0xFF; 5]);
}

#[test]
fn streams_of_different_packets_differ() {
    let stream = |packets: &[Packet]| -> Vec<u8> {
        packets.iter().flat_map(|p| p.to_bytes()).collect()
    };
    let a = [packet(1, 2), packet(3, 4)];
    let b = [packet(3, 4), packet(1, 2)];
    assert_eq!(stream(&a), [1, 0, 0, 0, 2, 3, 0, 0, 0, 4]);
    assert_ne!(stream(&a), stream(&b));
}

#[test]
fn gain_takes_mode_agc_and_value() {
    assert_eq!(
        set_gain_packets(Gain::Auto),
        vec![packet(0x03, 0), packet(0x08, 1)]
    );
    assert_eq!(
        set_gain_packets(Gain::Manual(496)),
        vec![packet(0x03, 1), packet(0x08, 0), packet(0x04, 496)]
    );
}

#[test]
fn default_configuration_packets() {
    assert_eq!(
        configure_device(&RtlTcpConfig::default()),
        vec![
            packet(0x02, 2_048_000),
            packet(0x01, 100_000_000),
            packet(0x03, 0),
            packet(0x08, 1),
            packet(0x0E, 0),
        ]
    );
}

#[test]
fn full_configuration_packets() {
    let config = RtlTcpConfig {
        host: "192.168.1.100".to_string(),
        port: 1234,
        center_freq: 1_090_000_000,
        sample_rate: 2_400_000,
        gain: Gain::Manual(300),
        bias_tee: true,
        ppm_correction: -3,
    };
    assert_eq!(
        configure_device(&config),
        vec![
            packet(0x02, 2_400_000),
            packet(0x01, 1_090_000_000),
            packet(0x03, 1),
            packet(0x08, 0),
            packet(0x04, 300),
            packet(0x05, 0xFFFF_FFFD),
            packet(0x0E, 1),
        ]
    );
}

#[test]
fn correction_is_sent_in_twos_complement() {
    for ppm in [1, -1, 42, i32::MAX, i32::MIN] {
        let config = RtlTcpConfig {
            ppm_correction: ppm,
            ..RtlTcpConfig::default()
        };
        assert_eq!(configure_device(&config)[4], packet(0x05, ppm as u32));
    }
}

#[test]
fn changed_settings_change_the_configuration() {
    let base = configure_device(&RtlTcpConfig::default());
    let changed = [
        RtlTcpConfig { sample_rate: 1, ..RtlTcpConfig::default() },
        RtlTcpConfig { center_freq: 1, ..RtlTcpConfig::default() },
        RtlTcpConfig { gain: Gain::Manual(0), ..RtlTcpConfig::default() },
        RtlTcpConfig { bias_tee: true, ..RtlTcpConfig::default() },
        RtlTcpConfig { ppm_correction: -1, ..RtlTcpConfig::default() },
    ];
    for config in &changed {
        assert_ne!(configure_device(config), base);
    }
    let moved = RtlTcpConfig { port: 1, ..RtlTcpConfig::default() };
    assert_eq!(configure_device(&moved), base);
}
