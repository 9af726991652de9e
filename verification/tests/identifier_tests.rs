use scmp_probe::error::ProbeError;
use scmp_probe::identifier::{
    identifier_pattern, parse_identifier, parse_pair, parse_screened, RegionNetworkId,
};

fn malformed(text: &str) -> Result<RegionNetworkId, ProbeError> {
    Err(ProbeError::MalformedIdentifier(text.to_string()))
}

#[test]
fn parses_a_typical_identifier() {
    let id = parse_identifier("18-ffaa:1:117c").unwrap();
    assert_eq!(id.region, 18);
    assert_eq!(id.network, (0xffaa_u64 << 32) | (0x0001_u64 << 16) | 0x117c_u64);
    assert_eq!(id.network, 0xffaa_0001_117c_u64);
}

#[test]
fn parse_without_screening_agrees() {
    let id = RegionNetworkId::parse("17-ffaa:1:117b").unwrap();
    assert_eq!(id, RegionNetworkId { region: 17, network: 0xffaa_0001_117b });
    assert_eq!(parse_identifier("17-ffaa:1:117b"), Ok(id));
}

#[test]
fn rejects_region_out_of_range() {
    assert_eq!(parse_identifier("70000-1:1:1"), malformed("70000-1:1:1"));
    assert_eq!(RegionNetworkId::parse("70000-1:1:1"), malformed("70000-1:1:1"));
    assert_eq!(parse_identifier("65536-1:1:1"), malformed("65536-1:1:1"));
}

#[test]
fn rejects_six_digit_region_that_the_pattern_lets_through() {
    assert!(regex::Regex::new(identifier_pattern()).unwrap().is_match("100000-1:1:1"));
    assert_eq!(parse_identifier("100000-1:1:1"), malformed("100000-1:1:1"));
    assert_eq!(parse_identifier("640000-1:1:1"), malformed("640000-1:1:1"));
}

#[test]
fn rejects_non_hex_group() {
    assert_eq!(parse_identifier("18-gggg:1:1"), malformed("18-gggg:1:1"));
    assert_eq!(RegionNetworkId::parse("18-gggg:1:1"), malformed("18-gggg:1:1"));
}

#[test]
fn rejects_missing_group() {
    assert_eq!(parse_identifier("18-1:1"), malformed("18-1:1"));
    assert_eq!(RegionNetworkId::parse("18-1:1"), malformed("18-1:1"));
}

#[test]
fn rejects_other_malformed_texts() {
    for text in [
        "", "-", "18", "18-", "18-1:1:", "18-:1:1", "18-1::1", "-1:1:1", "018-1:1:1", "00-1:1:1",
        "18-12345:1:1", "18-1:12345:1", "18-1:1:12345", "18-1:1:1:1", "18-1:1:1 ", " 18-1:1:1",
        "1a-1:1:1", "18_1:1:1", "18-1-1:1", "+18-1:1:1", "18-1:1:1\n", "１８-1:1:1",
    ] {
        assert_eq!(RegionNetworkId::parse(text), malformed(text), "{:?}", text);
        assert_eq!(parse_identifier(text), malformed(text), "{:?}", text);
    }
}

#[test]
fn accepts_the_edges_of_the_ranges() {
    assert_eq!(parse_identifier("0-0:0:0"), Ok(RegionNetworkId { region: 0, network: 0 }));
    assert_eq!(
        parse_identifier("65535-ffff:ffff:ffff"),
        Ok(RegionNetworkId { region: 65535, network: 0xffff_ffff_ffff })
    );
    assert_eq!(
        parse_identifier("1-FFAA:0:Ab"),
        Ok(RegionNetworkId { region: 1, network: 0xffaa_0000_00ab })
    );
    assert_eq!(
        parse_identifier("10-0001:002:03"),
        Ok(RegionNetworkId { region: 10, network: 0x0001_0002_0003 })
    );
}

#[test]
fn screening_decides_before_reading() {
    assert_eq!(parse_screened(false, "18-ffaa:1:117c"), malformed("18-ffaa:1:117c"));
    assert_eq!(
        parse_screened(true, "18-ffaa:1:117c"),
        Ok(RegionNetworkId { region: 18, network: 0xffaa_0001_117c })
    );
    assert_eq!(parse_screened(true, "18-1:1"), malformed("18-1:1"));
}

#[test]
fn pattern_is_fixed() {
    assert_eq!(
        identifier_pattern(),
        r"^(0|[1-9][0-9]{0,4}|[1-5][0-9]{5}|6[0-4][0-9]{4}|65[0-4][0-9]{3}|6553[0-5])-([0-9a-fA-F]{1,4}):([0-9a-fA-F]{1,4}):([0-9a-fA-F]{1,4})$"
    );
}

#[test]
fn groups_round_trip() {
    let id = RegionNetworkId::from_groups(18, 0xffaa, 0x0001, 0x117c);
    assert_eq!(id, parse_identifier("18-ffaa:1:117c").unwrap());
    assert_eq!(id.network >> 32, 0xffaa);
    assert_eq!((id.network >> 16) & 0xffff, 0x0001);
    assert_eq!(id.network & 0xffff, 0x117c);
    assert_eq!(id.hextets(), (0xffaa, 0x0001, 0x117c));
    let (high, middle, low) = RegionNetworkId { region: 3, network: 0x0123_4567_89ab }.hextets();
    assert_eq!((high, middle, low), (0x0123, 0x4567, 0x89ab));
    assert_eq!(RegionNetworkId::from_groups(3, high, middle, low).network, 0x0123_4567_89ab);
    assert_eq!(RegionNetworkId::from_groups(0, 0, 0, 0).network, 0);
    assert_eq!(RegionNetworkId::from_groups(1, 0xffff, 0xffff, 0xffff).network, 0xffff_ffff_ffff);
}

#[test]
fn packs_region_above_network() {
    let id = parse_identifier("18-ffaa:1:117c").unwrap();
    assert_eq!(id.to_u64(), 0x0012_ffaa_0001_117c);
    assert_eq!(RegionNetworkId { region: 65535, network: 0 }.to_u64(), 0xffff_0000_0000_0000);
}

#[test]
fn pair_reports_the_first_bad_text() {
    assert_eq!(
        parse_pair("18-ffaa:1:117c", "17-ffaa:1:117b"),
        Ok((
            RegionNetworkId { region: 18, network: 0xffaa_0001_117c },
            RegionNetworkId { region: 17, network: 0xffaa_0001_117b },
        ))
    );
    assert_eq!(
        parse_pair("bad", "also-bad"),
        Err(ProbeError::MalformedIdentifier("bad".to_string()))
    );
    assert_eq!(
        parse_pair("18-ffaa:1:117c", "17-ffaa:1"),
        Err(ProbeError::MalformedIdentifier("17-ffaa:1".to_string()))
    );
}
