use tracing_rfc_5424::facility::{Facility, Level};
use tracing_rfc_5424::rfc3164::{Error, Rfc3164, Rfc3164Builder, Rfc3164Hostname, Tag};
use tracing_rfc_5424::timestamp::Timestamp;

#[test]
fn test_hostname() {
    let _x = Rfc3164Hostname::resolve(Some(b"bree".to_vec()), None);

    assert!(Rfc3164Hostname::new("not valid".as_bytes().into()).is_err());

    assert!(Rfc3164Hostname::strip_domain("staging.pwpinfra.com".as_bytes().into()) == b"staging");

    let x = Rfc3164Hostname::try_from(String::from("bree"));
    assert!(x.is_ok());
}

#[test]
fn test_tag() {
    let _x = Tag::from_exe_file_name(Some(b"tracing-rfc".to_vec()));

    let x = Tag::new(b"tracingrfc".to_vec());
    assert!(x.is_ok());

    let x = Tag::new(b"012345678901234567890123456789012".to_vec());
    assert!(x.is_err());

    let x = Tag::new("ðŸ©¡".as_bytes().to_vec());
    assert!(x.is_err());
}

#[test]
fn strip_domain_cases() {
    assert_eq!(Rfc3164Hostname::strip_domain(b"staging.example.com".to_vec()), b"staging");
    assert_eq!(Rfc3164Hostname::strip_domain(b"bree".to_vec()), b"bree");
    assert_eq!(Rfc3164Hostname::strip_domain(b".lead".to_vec()), b"");
    assert_eq!(Rfc3164Hostname::strip_domain(Vec::new()), b"");
}

#[test]
fn hostname_and_tag_boundaries() {
    assert!(Rfc3164Hostname::new(b"!~".to_vec()).is_ok());
    assert!(Rfc3164Hostname::new(vec![0x7F]).is_ok());
    assert!(Rfc3164Hostname::new(vec![0x80]).is_err());
    assert!(Rfc3164Hostname::new(b"a b".to_vec()).is_err());
    assert!(matches!(Rfc3164Hostname::new(vec![0x20]), Err(Error::BadHostname { .. })));
    assert!(Tag::new(b"01234567890123456789012345678901".to_vec()).is_ok());
    assert!(Tag::new(b"abc-def".to_vec()).is_err());
    assert!(matches!(Tag::new(b"a_b".to_vec()), Err(Error::BadTag { .. })));
}

#[test]
fn hostname_resolution() {
    let h = Rfc3164Hostname::resolve(Some(b"staging.example.com".to_vec()), Some(b"10.1.2.3".to_vec()));
    assert_eq!(h.unwrap().as_bytes(), b"staging");
    let h = Rfc3164Hostname::resolve(Some(b"bad host".to_vec()), Some(b"10.1.2.3".to_vec()));
    assert_eq!(h.unwrap().as_bytes(), b"10.1.2.3");
    let h = Rfc3164Hostname::resolve(None, Some(b"fe80::1".to_vec()));
    assert_eq!(h.unwrap().as_bytes(), b"fe80::1");
    assert!(matches!(Rfc3164Hostname::resolve(None, None), Err(Error::BadIpAddress)));
}

#[test]
fn tag_resolution() {
    assert_eq!(Tag::strip_non_compliant(b"udp-test_1.bin".to_vec()), b"udptest1bin");
    assert_eq!(Tag::from_exe_file_name(Some(b"tracing-rfc-5424".to_vec())).unwrap().as_bytes(), b"tracingrfc5424");
    assert!(matches!(Tag::from_exe_file_name(None), Err(Error::NoTag)));
    assert!(matches!(Tag::from_exe_file_name(Some(b"--".to_vec())), Err(Error::NoTag)));
    assert!(matches!(Tag::from_exe_file_name(Some(vec![b'x'; 33])), Err(Error::BadTag { .. })));
}

fn builder() -> Rfc3164Builder {
    Rfc3164::builder(
        Rfc3164Hostname::new(b"bree".to_vec()).unwrap(),
        Tag::new(b"myapp".to_vec()).unwrap(),
        123,
    )
}

#[test]
fn format_with_rendered_timestamp() {
    let f = builder().build();
    let rsp = f.format_at(Level::LOG_INFO, "Hello, world!", "Jan  1 00:00:00");
    assert_eq!(
        std::str::from_utf8(&rsp).unwrap(),
        "<14>Jan  1 00:00:00 bree myapp[123]: Hello, world!"
    );

    let f = builder().facility(Facility::LOG_LOCAL0).build();
    let rsp = f.format_at(Level::LOG_ERR, "Hello, 世界!", "Dec 31 23:59:59");
    assert_eq!(
        std::str::from_utf8(&rsp).unwrap(),
        "<131>Dec 31 23:59:59 bree myapp[123]: Hello, 世界!"
    );
}

#[test]
fn format_escapes_unicode_when_asked() {
    let f = builder().escape_unicode(true).build();
    let rsp = f.format_at(Level::LOG_INFO, "Hé\n", "Jan  1 00:00:00");
    assert_eq!(
        std::str::from_utf8(&rsp).unwrap(),
        "<14>Jan  1 00:00:00 bree myapp[123]: \\u{48}\\u{e9}\\u{a}"
    );
}

#[test]
fn builder_setters() {
    let f = builder()
        .hostname_as_string("host1".to_string())
        .unwrap()
        .tag_as_string("tag2".to_string())
        .unwrap()
        .build();
    let rsp = f.format_at(Level::LOG_DEBUG, "m", "T");
    assert_eq!(std::str::from_utf8(&rsp).unwrap(), "<15>T host1 tag2[123]: m");
    assert!(builder().hostname_as_string("no good".to_string()).is_err());
    assert!(builder().tag_as_string("no-good".to_string()).is_err());
}

#[test]
fn format_renders_a_bsd_timestamp() {
    let f = builder().build();
    for ts in [Timestamp::new(0, 0), None, Timestamp::new(1_700_000_000, 5)] {
        let rsp = f.format(Level::LOG_INFO, "x", ts).unwrap();
        let text = String::from_utf8(rsp).unwrap();
        assert!(text.starts_with("<14>"));
        let stamp = &text[4..19];
        let months = ["Jan", "Feb", "Mar", "Apr", "May", "Jun", "Jul", "Aug", "Sep", "Oct", "Nov", "Dec"];
        assert!(months.contains(&&stamp[0..3]));
        assert_eq!(&stamp[3..4], " ");
        assert_eq!(&stamp[9..10], ":");
        assert_eq!(&stamp[12..13], ":");
        assert_eq!(&text[19..], " bree myapp[123]: x");
    }
}

#[test]
fn unicode_text_is_kept_without_escaping() {
    let f = builder().build();
    let a = f.format_at(Level::LOG_INFO, "Hello, 世界!", "T");
    let b = f.format_at(Level::LOG_INFO, "Hello, 世界!", "T");
    assert_eq!(a, b);
    assert!(String::from_utf8(a).unwrap().ends_with(": Hello, 世界!"));
}
