use ord_stream::ids::{
    read_inscription_id, read_outpoint, read_rune_id, read_satpoint, BlockHash, InscriptionId,
    OutPoint, RuneId, SatPoint, Txid,
};
use ord_stream::text::{push_decimal, push_hex, read_decimal, read_hex};

fn decimal(v: u128) -> String {
    let mut s = String::new();
    push_decimal(&mut s, v);
    s
}

#[test]
fn decimal_text_is_what_std_prints() {
    for v in [0u128, 1, 9, 10, 11, 99, 100, 101, 4294967295, 18446744073709551615, u128::MAX] {
        assert_eq!(decimal(v), v.to_string());
    }
}

#[test]
fn decimal_is_appended() {
    let mut s = String::from("n=");
    push_decimal(&mut s, 840000);
    assert_eq!(s, "n=840000");
}

#[test]
fn hex_text_is_lower_case_and_in_order() {
    let mut bytes = [0u8; 32];
    for i in 0..32 {
        bytes[i] = (i as u8) * 8 + 1;
    }
    let mut s = String::from("x");
    push_hex(&mut s, &bytes);
    let mut expected = String::from("x");
    for b in bytes {
        expected.push_str(&format!("{:02x}", b));
    }
    assert_eq!(s, expected);
    assert_eq!(Txid { bytes }.to_text(), expected[1..]);
    assert_eq!(BlockHash { bytes: [0xfe; 32] }.to_text(), "fe".repeat(32));
}

#[test]
fn read_decimal_reads_the_whole_run() {
    assert_eq!(read_decimal(b"840000,", 0, u128::MAX), Some((840000, 6)));
    assert_eq!(read_decimal(b"x12", 1, u128::MAX), Some((12, 3)));
    assert_eq!(read_decimal(b"0", 0, 0), Some((0, 1)));
    assert_eq!(read_decimal(b"255", 0, 255), Some((255, 3)));
}

#[test]
fn read_decimal_refuses() {
    assert_eq!(read_decimal(b"", 0, 10), None);
    assert_eq!(read_decimal(b"x", 0, 10), None);
    assert_eq!(read_decimal(b"12", 2, 10), None);
    assert_eq!(read_decimal(b"007", 0, 10), None);
    assert_eq!(read_decimal(b"00", 0, 10), None);
    assert_eq!(read_decimal(b"256", 0, 255), None);
    assert_eq!(read_decimal(b"2550", 0, 255), None);
    assert_eq!(read_decimal(b"+1", 0, 255), None);
    assert_eq!(
        read_decimal(b"340282366920938463463374607431768211456", 0, u128::MAX),
        None
    );
    assert_eq!(
        read_decimal(b"999999999999999999999999999999999999999999", 0, u128::MAX),
        None
    );
}

#[test]
fn read_hex_reads_sixty_four_digits() {
    let text = format!("{}{}", "0a".repeat(31), "ff-");
    let mut expected = [0x0au8; 32];
    expected[31] = 0xff;
    assert_eq!(read_hex(text.as_bytes(), 0), Some((expected, 64)));
    assert_eq!(read_hex(&text.as_bytes()[..63], 0), None);
    assert_eq!(read_hex(text.to_uppercase().as_bytes(), 0), None);
    assert_eq!(read_hex(text.replace("ff", "fg").as_bytes(), 0), None);
    assert_eq!(read_hex(text.as_bytes(), 1), None);
}

#[test]
fn reading_behind_the_end_finds_nothing() {
    assert_eq!(read_decimal(b"12", 3, 100), None);
    assert_eq!(read_hex(b"12", 3), None);
    assert_eq!(read_rune_id(b"1:1", 4), None);
    assert_eq!(read_outpoint(b"1:1", 4), None);
    assert_eq!(read_satpoint(b"1:1", 4), None);
    assert_eq!(read_inscription_id(b"1:1", 4), None);
}

#[test]
fn identifiers_as_text() {
    let txid = Txid { bytes: [0x12; 32] };
    let h = "12".repeat(32);
    let outpoint = OutPoint { txid, vout: 7 };
    assert_eq!(outpoint.to_text(), format!("{}:7", h));
    assert_eq!(SatPoint { outpoint, offset: 546 }.to_text(), format!("{}:7:546", h));
    assert_eq!(InscriptionId { txid, index: 0 }.to_text(), format!("{}i0", h));
    assert_eq!(RuneId { block: 1, tx: 1 }.to_text(), "1:1");
    assert_eq!(RuneId { block: 840000, tx: 4294967295 }.to_text(), "840000:4294967295");
}

#[test]
fn identifiers_read_back() {
    let txid = Txid { bytes: [0x34; 32] };
    let outpoint = OutPoint { txid, vout: 4294967295 };
    let satpoint = SatPoint { outpoint, offset: 18446744073709551615 };
    let id = InscriptionId { txid, index: 12 };
    let rune = RuneId { block: 18446744073709551615, tx: 0 };
    let t = format!("{}\"", outpoint.to_text());
    assert_eq!(read_outpoint(t.as_bytes(), 0), Some((outpoint, t.len() - 1)));
    let t = format!("{}\"", satpoint.to_text());
    assert_eq!(read_satpoint(t.as_bytes(), 0), Some((satpoint, t.len() - 1)));
    let t = format!("{}\"", id.to_text());
    assert_eq!(read_inscription_id(t.as_bytes(), 0), Some((id, t.len() - 1)));
    let t = format!("{}\"", rune.to_text());
    assert_eq!(read_rune_id(t.as_bytes(), 0), Some((rune, t.len() - 1)));
}

#[test]
fn identifiers_out_of_range_are_refused() {
    let h = "00".repeat(32);
    assert_eq!(read_outpoint(format!("{}:4294967296", h).as_bytes(), 0), None);
    assert_eq!(read_outpoint(format!("{}-1", h).as_bytes(), 0), None);
    assert_eq!(read_inscription_id(format!("{}i4294967296", h).as_bytes(), 0), None);
    assert_eq!(read_inscription_id(format!("{}:1", h).as_bytes(), 0), None);
    assert_eq!(read_satpoint(format!("{}:1:18446744073709551616", h).as_bytes(), 0), None);
    assert_eq!(read_satpoint(format!("{}:1", h).as_bytes(), 0), None);
    assert_eq!(read_rune_id(b"18446744073709551616:1", 0), None);
    assert_eq!(read_rune_id(b"1:4294967296", 0), None);
    assert_eq!(read_rune_id(b"1", 0), None);
}
