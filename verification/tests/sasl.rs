use sasl2_sys::sasl::{
    decode_version, sasl_version_full, sasl_version_major, sasl_version_minor, sasl_version_step,
    PublishedVersion,
};
use sasl2_sys::version::{publish_line, publish_version, VersionTriple};

fn published(major: &str, minor: &str, step: &str) -> PublishedVersion {
    PublishedVersion { major: major.to_string(), minor: minor.to_string(), step: step.to_string() }
}

#[test]
fn decodes_the_first_byte() {
    assert_eq!(decode_version("\u{2}"), 2);
    assert_eq!(decode_version("\u{1b}"), 27);
    assert_eq!(decode_version("A"), 65);
    assert_eq!(decode_version("\u{7f}rest"), 127);
    assert_eq!(decode_version("\u{e9}"), 0xc3);
}

#[test]
fn reads_the_published_components() {
    let version = published("\u{2}", "\u{1}", "\u{1b}");
    assert_eq!(sasl_version_major(&version), 2);
    assert_eq!(sasl_version_minor(&version), 1);
    assert_eq!(sasl_version_step(&version), 27);
    assert_eq!(sasl_version_full(&version), 0x02011b);
}

#[test]
fn decodes_what_was_published() {
    for value in [1u8, 2, 26, 27, 28, 127] {
        let line = publish_line("SASL_VERSION_STEP", value);
        let prefix = b"cargo:rustc-env=SASL_VERSION_STEP=";
        assert_eq!(&line[..prefix.len()], prefix);
        let payload = String::from_utf8(line[prefix.len()..line.len() - 1].to_vec()).unwrap();
        assert_eq!(decode_version(&payload), value);
    }
}

#[test]
fn reads_back_a_published_version() {
    let lines = publish_version(VersionTriple { major: 2, minor: 1, step: 28 });
    let payload = |line: &Vec<u8>| -> String {
        let at = line.iter().position(|b| *b == b'=').unwrap();
        let rest = &line[at + 1..];
        let at = rest.iter().position(|b| *b == b'=').unwrap();
        String::from_utf8(rest[at + 1..rest.len() - 1].to_vec()).unwrap()
    };
    let version = PublishedVersion {
        major: payload(&lines[0]),
        minor: payload(&lines[1]),
        step: payload(&lines[2]),
    };
    assert_eq!(sasl_version_major(&version), 2);
    assert_eq!(sasl_version_minor(&version), 1);
    assert_eq!(sasl_version_step(&version), 28);
    assert_eq!(sasl_version_full(&version), (2 << 16) | (1 << 8) | 28);
}
