use tracing_rfc_5424::facility::{Facility, Level};
use tracing_rfc_5424::rfc5424::{AppName, EventMetadata, Hostname, ProcId, Rfc5424, Rfc5424Builder};
use tracing_rfc_5424::timestamp::Timestamp;
use tracing_rfc_5424::tracing::TrivialTracingFormatter;

fn base_builder() -> Rfc5424Builder {
    Rfc5424::builder(
        Hostname::resolve(None, None),
        AppName::from_exe_file_name(None),
        ProcId::from_pid(1),
    )
}

fn bree_builder() -> Rfc5424Builder {
    base_builder()
        .hostname_as_string("bree.local".to_string())
        .unwrap()
        .appname_as_string("prototyping".to_string())
        .unwrap()
        .pid_as_string("123".to_string())
        .unwrap()
}

fn test_metadata() -> EventMetadata {
    EventMetadata {
        target: "test-target".to_string(),
        module: Some("tracing_rfc_5424::layer::smoke".to_string()),
        file: Some("src/layer.rs".to_string()),
        line: Some(355),
    }
}

fn epoch() -> Option<Timestamp> {
    Some(Timestamp::new(0, 0).unwrap())
}

#[test]
fn layer_test_rfc_5424_impl() {
    let _f = Rfc5424::new(
        Hostname::resolve(None, None),
        AppName::from_exe_file_name(None),
        ProcId::from_pid(1),
    );

    let f = bree_builder().build();
    let _fmtr = TrivialTracingFormatter::default();
    let md = test_metadata();

    let rsp: Vec<u8> = f.format(Level::LOG_INFO, "Hello, world!", epoch(), &md).unwrap();
    assert_eq!(
        std::str::from_utf8(&rsp).unwrap(),
        "<14>1 1970-01-01T00:00:00.000000+00:00 bree.local prototyping 123 - - Hello, world!"
    );

    let rsp: Vec<u8> = f.format(Level::LOG_INFO, "Hello, 世界!", epoch(), &md).unwrap();
    assert_eq!(
        std::str::from_utf8(&rsp).unwrap(),
        "<14>1 1970-01-01T00:00:00.000000+00:00 bree.local prototyping 123 - - Hello, 世界!"
    );

    let f = bree_builder().with_bom(true).build();
    let rsp: Vec<u8> = f.format(Level::LOG_INFO, "Hello, world!", epoch(), &md).unwrap();
    let mut golden =
        Vec::from("<14>1 1970-01-01T00:00:00.000000+00:00 bree.local prototyping 123 - - ");
    golden.push(0xef_u8);
    golden.push(0xbb_u8);
    golden.push(0xbf_u8);
    golden.extend_from_slice("Hello, world!".as_bytes());
    assert_eq!(rsp, golden);
}

#[test]
fn test_structured_data() {
    let md = test_metadata();
    let expected_file = md.file.clone().unwrap();
    let expected_line = md.line.unwrap();
    let expected_module = md.module.clone().unwrap();

    let f = bree_builder().with_tracing_target(true).build();
    let rsp = f.format(Level::LOG_INFO, "Hello, world!", epoch(), &md).unwrap();
    assert_eq!(
        std::str::from_utf8(&rsp).unwrap(),
        "<14>1 1970-01-01T00:00:00.000000+00:00 bree.local prototyping 123 - [tracing-meta@64700 target=\"test-target\"] Hello, world!"
    );

    let f_loc = bree_builder().with_tracing_source_location(true).build();
    let rsp = f_loc.format(Level::LOG_INFO, "Hello, world!", epoch(), &md).unwrap();
    let expected = format!(
        "<14>1 1970-01-01T00:00:00.000000+00:00 bree.local prototyping 123 - [tracing-meta@64700 file=\"{}\" line=\"{}\"] Hello, world!",
        expected_file, expected_line
    );
    assert_eq!(std::str::from_utf8(&rsp).unwrap(), expected);

    let f_module = bree_builder().with_tracing_module(true).build();
    let rsp = f_module.format(Level::LOG_INFO, "Hello, world!", epoch(), &md).unwrap();
    let expected = format!(
        "<14>1 1970-01-01T00:00:00.000000+00:00 bree.local prototyping 123 - [tracing-meta@64700 module=\"{}\"] Hello, world!",
        expected_module
    );
    assert_eq!(std::str::from_utf8(&rsp).unwrap(), expected);

    let f_both = bree_builder()
        .with_tracing_target(true)
        .with_tracing_source_location(true)
        .build();
    let rsp = f_both.format(Level::LOG_INFO, "Hello, world!", epoch(), &md).unwrap();
    let expected = format!(
        "<14>1 1970-01-01T00:00:00.000000+00:00 bree.local prototyping 123 - [tracing-meta@64700 target=\"test-target\" file=\"{}\" line=\"{}\"] Hello, world!",
        expected_file, expected_line
    );
    assert_eq!(std::str::from_utf8(&rsp).unwrap(), expected);

    let f_all = bree_builder()
        .with_tracing_target(true)
        .with_tracing_module(true)
        .with_tracing_source_location(true)
        .build();
    let rsp = f_all.format(Level::LOG_INFO, "Hello, world!", epoch(), &md).unwrap();
    let expected = format!(
        "<14>1 1970-01-01T00:00:00.000000+00:00 bree.local prototyping 123 - [tracing-meta@64700 target=\"test-target\" module=\"{}\" file=\"{}\" line=\"{}\"] Hello, world!",
        expected_module, expected_file, expected_line
    );
    assert_eq!(std::str::from_utf8(&rsp).unwrap(), expected);
}

fn fractional_digits(message: &str) -> usize {
    let i = message.find('.').unwrap();
    let j = message.find('+').unwrap();
    j - i - 1
}

#[test]
fn layer_test_against_issue_014_regression() {
    let md = EventMetadata {
        target: "test-target".to_string(),
        module: Some("tracing_rfc_5424::layer::smoke".to_string()),
        file: Some("src/layer.rs".to_string()),
        line: Some(628),
    };
    let test_message = String::from_utf8(
        base_builder()
            .facility(Facility::LOG_USER)
            .hostname_as_string("bree".to_owned())
            .unwrap()
            .appname_as_string("unit test suite".to_owned())
            .unwrap()
            .build()
            .format(
                Level::LOG_NOTICE,
                "This is a test message; its timestamp had better not have more than 6 digits in the fractional seconds place",
                None,
                &md,
            )
            .unwrap(),
    )
    .unwrap();
    assert!(
        fractional_digits(&test_message) <= 6,
        "Fractional seconds should not exceed 6 digits"
    );
}

#[test]
fn rfc5424_test_against_issue_014_regression() {
    let md = EventMetadata { target: String::new(), module: None, file: None, line: None };
    let test_message = String::from_utf8(
        base_builder()
            .facility(Facility::LOG_USER)
            .hostname_as_string("bree".to_owned())
            .unwrap()
            .appname_as_string("unit test suite".to_owned())
            .unwrap()
            .build()
            .format(
                Level::LOG_NOTICE,
                "This is a test message; its timestamp had better not have more than 6 digits in the fractional seconds place",
                None,
                &md,
            )
            .unwrap(),
    )
    .unwrap();
    assert!(fractional_digits(&test_message) <= 6);
}

#[test]
fn fractional_seconds_are_six_digits_for_nanosecond_timestamps() {
    let md = EventMetadata { target: String::new(), module: None, file: None, line: None };
    let f = bree_builder().build();
    let t = Timestamp::new(1_700_000_000, 123_456_789);
    let rsp = f.format(Level::LOG_INFO, "x", t, &md).unwrap();
    let text = String::from_utf8(rsp).unwrap();
    assert_eq!(
        text,
        "<14>1 2023-11-14T22:13:20.123456+00:00 bree.local prototyping 123 - - x"
    );
    assert_eq!(fractional_digits(&text), 6);
}

#[test]
fn app_name() {
    let _x = AppName::from_exe_file_name(Some(b"udp-test".to_vec()));

    let x: &[u8] = b"0123456789012345678901234567890123456789012345678";
    let v: Vec<u8> = x.into();
    assert!(AppName::new(v).is_err());

    let x: &[u8] = b"udp-test";
    let v: Vec<u8> = x.into();
    assert!(AppName::new(v).is_ok());
}

fn all_metadata_builder() -> Rfc5424Builder {
    base_builder()
        .with_tracing_target(true)
        .with_tracing_module(true)
        .with_tracing_source_location(true)
}

#[test]
fn test_parsing_structured_data() {
    let formatter = all_metadata_builder().build();
    let md = EventMetadata {
        target: "test_target".to_string(),
        module: Some("test::module::path".to_string()),
        file: Some("src/rfc5424.rs".to_string()),
        line: Some(300),
    };
    let output = formatter.format(Level::LOG_INFO, "test message", None, &md).unwrap();
    let message_str = std::str::from_utf8(&output).unwrap();
    println!("Generated message: {}", message_str);

    assert!(message_str.ends_with(" test message"));
    let sd = "[tracing-meta@64700 target=\"test_target\" module=\"test::module::path\" file=\"src/rfc5424.rs\" line=\"300\"]";
    assert!(message_str.contains(sd), "target parameter not found");
    assert!(message_str.contains(" target=\"test_target\""));
    assert!(message_str.contains(" module=\"test::module::path\""));
    assert!(message_str.contains(" file=\"src/rfc5424.rs\""));
    assert!(message_str.contains(" line=\"300\""));
}

#[test]
fn test_custom_sdid() {
    let formatter = base_builder()
        .with_tracing_metadata_sdid("custom@12345".to_string())
        .with_tracing_target(true)
        .build();
    let md = EventMetadata {
        target: "test_target".to_string(),
        module: Some("test::module::path".to_string()),
        file: Some("src/rfc5424.rs".to_string()),
        line: Some(380),
    };
    let output = formatter.format(Level::LOG_INFO, "test message", None, &md).unwrap();
    let message_str = std::str::from_utf8(&output).unwrap();
    println!("Generated message with custom SD-ID: {}", message_str);
    assert!(
        message_str.contains("[custom@12345 target=\"test_target\"]"),
        "target parameter not found with custom SD-ID"
    );
    assert!(
        !message_str.contains("tracing-meta@64700"),
        "default SD-ID should not be present"
    );
}

#[test]
fn structured_data_is_nil_when_nothing_enabled_or_present() {
    let f = bree_builder().build();
    let md = test_metadata();
    let rsp = f.format_at(Level::LOG_INFO, "m", "TS", &md);
    assert_eq!(rsp, b"<14>1 TS bree.local prototyping 123 - - m".to_vec());

    let f = bree_builder().with_tracing_target(false).build();
    let rsp = f.format_at(Level::LOG_INFO, "m", "TS", &md);
    assert_eq!(rsp, b"<14>1 TS bree.local prototyping 123 - - m".to_vec());

    let f = bree_builder().with_tracing_target(true).with_tracing_module(true).build();
    let empty = EventMetadata { target: String::new(), module: None, file: None, line: None };
    let rsp = f.format_at(Level::LOG_INFO, "m", "TS", &empty);
    assert_eq!(rsp, b"<14>1 TS bree.local prototyping 123 - - m".to_vec());
}

#[test]
fn structured_data_values_are_escaped() {
    let f = bree_builder().with_tracing_target(true).build();
    let md = EventMetadata {
        target: "a\\b\"c]d".to_string(),
        module: None,
        file: None,
        line: None,
    };
    let rsp = f.format_at(Level::LOG_ERR, "m", "TS", &md);
    assert_eq!(
        std::str::from_utf8(&rsp).unwrap(),
        "<11>1 TS bree.local prototyping 123 - [tracing-meta@64700 target=\"a\\\\b\\\"c\\]d\"] m"
    );
}

#[test]
fn location_with_line_only() {
    let f = bree_builder().with_tracing_source_location(true).build();
    let md = EventMetadata { target: String::new(), module: None, file: None, line: Some(7) };
    let rsp = f.format_at(Level::LOG_DEBUG, "m", "TS", &md);
    assert_eq!(
        std::str::from_utf8(&rsp).unwrap(),
        "<15>1 TS bree.local prototyping 123 - [tracing-meta@64700 line=\"7\"] m"
    );
}

#[test]
fn empty_sdid_means_default() {
    let f = bree_builder()
        .with_tracing_metadata_sdid(String::new())
        .with_tracing_target(true)
        .build();
    let rsp = f.format_at(Level::LOG_INFO, "m", "TS", &test_metadata());
    assert_eq!(
        std::str::from_utf8(&rsp).unwrap(),
        "<14>1 TS bree.local prototyping 123 - [tracing-meta@64700 target=\"test-target\"] m"
    );
}

#[test]
fn bom_adds_exactly_three_bytes_before_the_text() {
    let md = test_metadata();
    let plain = bree_builder().build().format(Level::LOG_INFO, "Hello", epoch(), &md).unwrap();
    let marked = bree_builder()
        .with_bom(true)
        .build()
        .format(Level::LOG_INFO, "Hello", epoch(), &md)
        .unwrap();
    assert_eq!(marked.len(), plain.len() + 3);
    let k = plain.len() - "Hello".len();
    assert_eq!(&marked[..k], &plain[..k]);
    assert_eq!(&marked[k..k + 3], &[0xEF, 0xBB, 0xBF]);
    assert_eq!(&marked[k + 3..], b"Hello");
}

#[test]
fn encoding_twice_gives_identical_bytes() {
    let md = test_metadata();
    let f = all_metadata_builder()
        .hostname_as_string("bree.local".to_string())
        .unwrap()
        .build();
    let a = f.format(Level::LOG_WARNING, "same", epoch(), &md).unwrap();
    let b = f.format(Level::LOG_WARNING, "same", epoch(), &md).unwrap();
    assert_eq!(a, b);
}

#[test]
fn unicode_text_is_kept_as_utf8() {
    let md = test_metadata();
    let f = bree_builder().build();
    let rsp = f.format(Level::LOG_INFO, "Hello, 世界!", epoch(), &md).unwrap();
    let text = String::from_utf8(rsp).unwrap();
    assert!(text.ends_with(" Hello, 世界!"));
}

#[test]
fn field_boundaries() {
    assert!(Hostname::new(vec![b'a'; 255]).is_ok());
    assert!(Hostname::new(vec![b'a'; 256]).is_err());
    assert!(Hostname::new(vec![0xC3, 0xA9]).is_err());
    assert!(AppName::new(vec![b'a'; 48]).is_ok());
    assert!(AppName::new(vec![b'a'; 49]).is_err());
    assert!(AppName::new(vec![0x80]).is_err());
    assert!(ProcId::new(vec![b'1'; 128]).is_ok());
    assert!(ProcId::new(vec![b'1'; 129]).is_err());
    assert!(ProcId::new(vec![0xFF]).is_err());
    assert!(matches!(Hostname::new(vec![0xFF]), Err(tracing_rfc_5424::rfc5424::Error::BadHostname { .. })));
    assert!(matches!(AppName::new(vec![0xFF]), Err(tracing_rfc_5424::rfc5424::Error::BadAppName { .. })));
    assert!(matches!(ProcId::new(vec![0xFF]), Err(tracing_rfc_5424::rfc5424::Error::BadProcId { .. })));
}

#[test]
fn default_resolution_falls_back_in_order() {
    assert_eq!(Hostname::resolve(Some(b"bree".to_vec()), Some(b"10.0.0.1".to_vec())).as_bytes(), b"bree");
    assert_eq!(Hostname::resolve(Some(vec![0xFF]), Some(b"10.0.0.1".to_vec())).as_bytes(), b"10.0.0.1");
    assert_eq!(Hostname::resolve(None, None).as_bytes(), b"-");
    assert_eq!(AppName::from_exe_file_name(Some(b"udp-test".to_vec())).as_bytes(), b"udp-test");
    assert_eq!(AppName::from_exe_file_name(Some(vec![b'a'; 49])).as_bytes(), b"-");
    assert_eq!(AppName::from_exe_file_name(None).as_bytes(), b"-");
    assert_eq!(ProcId::from_pid(4294967295).as_bytes(), b"4294967295");
    assert_eq!(ProcId::from_pid(0).as_bytes(), b"0");
}

#[test]
fn timestamp_range() {
    assert!(Timestamp::new(0, 0).is_some());
    assert!(Timestamp::new(0, 1_000_000_000).is_none());
    assert!(Timestamp::new(253_402_300_799, 999_999_999).is_some());
    assert!(Timestamp::new(253_402_300_800, 0).is_none());
    assert!(Timestamp::new(-62_167_219_200, 0).is_some());
    assert!(Timestamp::new(-62_167_219_201, 0).is_none());
    let md = EventMetadata { target: String::new(), module: None, file: None, line: None };
    let f = bree_builder().build();
    let rsp = f.format(Level::LOG_INFO, "x", Timestamp::new(253_402_300_799, 999_999_999), &md).unwrap();
    assert_eq!(
        String::from_utf8(rsp).unwrap(),
        "<14>1 9999-12-31T23:59:59.999999+00:00 bree.local prototyping 123 - - x"
    );
    let rsp = f.format(Level::LOG_INFO, "x", Timestamp::new(-62_167_219_200, 0), &md).unwrap();
    assert_eq!(
        String::from_utf8(rsp).unwrap(),
        "<14>1 0000-01-01T00:00:00.000000+00:00 bree.local prototyping 123 - - x"
    );
}
