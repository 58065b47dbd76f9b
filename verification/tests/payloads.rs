use ord_stream::decode::decode;
use ord_stream::event::{Event, EventKind};
use ord_stream::ids::{BlockHash, InscriptionId, OutPoint, RuneId, SatPoint, Txid};
use ord_stream::key::partition_key;
use ord_stream::payload::{payload, payload_string};

fn hash(seed: u8) -> [u8; 32] {
    let mut bytes = [0u8; 32];
    let mut i = 0;
    while i < 32 {
        bytes[i] = seed.wrapping_mul(31).wrapping_add(i as u8);
        i += 1;
    }
    bytes
}

fn hex_of(bytes: &[u8; 32]) -> String {
    let mut s = String::new();
    for b in bytes.iter() {
        s.push_str(&format!("{:02x}", b));
    }
    s
}

fn satpoint(seed: u8, vout: u32, offset: u64) -> SatPoint {
    SatPoint { outpoint: OutPoint { txid: Txid { bytes: hash(seed) }, vout }, offset }
}

fn all_six() -> Vec<Event> {
    vec![
        Event::InscriptionCreated {
            block_hash: BlockHash { bytes: hash(1) },
            block_height: 1,
            charms: 65535,
            inscription_id: InscriptionId { txid: Txid { bytes: hash(2) }, index: 0 },
            location: Some(satpoint(3, 4294967295, 18446744073709551615)),
            parent_inscription_ids: vec![
                InscriptionId { txid: Txid { bytes: hash(4) }, index: 1 },
                InscriptionId { txid: Txid { bytes: hash(5) }, index: 20 },
                InscriptionId { txid: Txid { bytes: hash(6) }, index: 300 },
            ],
            sequence_number: 7,
        },
        Event::InscriptionTransferred {
            block_hash: BlockHash { bytes: hash(7) },
            block_height: 4294967295,
            inscription_id: InscriptionId { txid: Txid { bytes: hash(8) }, index: 9 },
            new_location: satpoint(9, 0, 0),
            old_location: satpoint(10, 1, 546),
            sequence_number: 0,
        },
        Event::RuneBurned {
            block_hash: BlockHash { bytes: hash(11) },
            amount: 340282366920938463463374607431768211455,
            block_height: 840000,
            rune_id: RuneId { block: 840000, tx: 12 },
            txid: Txid { bytes: hash(12) },
        },
        Event::RuneEtched {
            block_hash: BlockHash { bytes: hash(13) },
            block_height: 840001,
            rune_id: RuneId { block: 18446744073709551615, tx: 4294967295 },
            txid: Txid { bytes: hash(14) },
        },
        Event::RuneMinted {
            block_hash: BlockHash { bytes: hash(15) },
            amount: 0,
            block_height: 10,
            rune_id: RuneId { block: 0, tx: 0 },
            txid: Txid { bytes: hash(16) },
        },
        Event::RuneTransferred {
            block_hash: BlockHash { bytes: hash(17) },
            amount: 1000000,
            block_height: 100,
            outpoint: OutPoint { txid: Txid { bytes: hash(18) }, vout: 3 },
            rune_id: RuneId { block: 2, tx: 5 },
            txid: Txid { bytes: hash(19) },
        },
    ]
}

#[test]
fn every_kind_reads_back_as_written() {
    for event in all_six() {
        let bytes = payload(&event);
        let back = decode(&bytes).expect("a written payload is read back");
        assert_eq!(back, event);
    }
}

#[test]
fn writing_what_was_read_gives_the_same_bytes() {
    for event in all_six() {
        let first = payload(&event);
        let second = payload(&decode(&first).unwrap());
        assert_eq!(first, second);
    }
}

#[test]
fn payload_bytes_are_the_payload_string() {
    for event in all_six() {
        assert_eq!(payload(&event), payload_string(&event).into_bytes());
    }
}

#[test]
fn minted_rune_is_keyed_and_read_back() {
    let txid = Txid { bytes: hash(42) };
    let event = Event::RuneMinted {
        block_hash: BlockHash { bytes: hash(43) },
        amount: 500,
        block_height: 840000,
        rune_id: RuneId { block: 1, tx: 1 },
        txid,
    };
    let key = partition_key(&event);
    assert_eq!(key, format!("RuneMinted_840000_1:1_{}", hex_of(&txid.bytes)));
    assert_eq!(decode(&payload(&event)), Some(event));
}

#[test]
fn rune_minted_payload_text() {
    let event = Event::RuneMinted {
        block_hash: BlockHash { bytes: [0xab; 32] },
        amount: 500,
        block_height: 840000,
        rune_id: RuneId { block: 1, tx: 1 },
        txid: Txid { bytes: [0x01; 32] },
    };
    let expected = format!(
        "{{\"RuneMinted\":{{\"block_hash\":\"{}\",\"amount\":500,\"block_height\":840000,\"rune_id\":\"1:1\",\"txid\":\"{}\"}}}}",
        "ab".repeat(32),
        "01".repeat(32)
    );
    assert_eq!(payload_string(&event), expected);
}

#[test]
fn inscription_without_location_is_written_as_null() {
    let id = InscriptionId { txid: Txid { bytes: hash(50) }, index: 0 };
    let event = Event::InscriptionCreated {
        block_hash: BlockHash { bytes: hash(51) },
        block_height: 1,
        charms: 0,
        inscription_id: id,
        location: None,
        parent_inscription_ids: vec![],
        sequence_number: 7,
    };
    let text = payload_string(&event);
    assert!(text.contains(",\"location\":null,"));
    assert!(text.contains(",\"parent_inscription_ids\":[],"));
    assert!(text.ends_with(",\"sequence_number\":7}}"));
    let back = decode(text.as_bytes()).unwrap();
    assert_eq!(back, event);
    match back {
        Event::InscriptionCreated { location, .. } => assert_eq!(location, None),
        _ => panic!("another kind came back"),
    }
}

#[test]
fn inscription_created_payload_text() {
    let event = Event::InscriptionCreated {
        block_hash: BlockHash { bytes: [0x10; 32] },
        block_height: 2,
        charms: 3,
        inscription_id: InscriptionId { txid: Txid { bytes: [0x20; 32] }, index: 4 },
        location: Some(SatPoint {
            outpoint: OutPoint { txid: Txid { bytes: [0x30; 32] }, vout: 5 },
            offset: 6,
        }),
        parent_inscription_ids: vec![
            InscriptionId { txid: Txid { bytes: [0x40; 32] }, index: 7 },
            InscriptionId { txid: Txid { bytes: [0x50; 32] }, index: 8 },
        ],
        sequence_number: 9,
    };
    let expected = format!(
        "{{\"InscriptionCreated\":{{\"block_hash\":\"{}\",\"block_height\":2,\"charms\":3,\"inscription_id\":\"{}i4\",\"location\":\"{}:5:6\",\"parent_inscription_ids\":[\"{}i7\",\"{}i8\"],\"sequence_number\":9}}}}",
        "10".repeat(32),
        "20".repeat(32),
        "30".repeat(32),
        "40".repeat(32),
        "50".repeat(32)
    );
    assert_eq!(payload_string(&event), expected);
}

#[test]
fn payload_is_json_with_the_fields_by_name() {
    let event = Event::RuneTransferred {
        block_hash: BlockHash { bytes: [0xff; 32] },
        amount: 77,
        block_height: 123456,
        outpoint: OutPoint { txid: Txid { bytes: [0x0a; 32] }, vout: 2 },
        rune_id: RuneId { block: 840000, tx: 3 },
        txid: Txid { bytes: [0x0b; 32] },
    };
    let value: serde_json::Value = serde_json::from_slice(&payload(&event)).unwrap();
    let body = value.get("RuneTransferred").unwrap();
    assert_eq!(body.get("block_hash").unwrap().as_str().unwrap(), "ff".repeat(32));
    assert_eq!(body.get("amount").unwrap().as_u64(), Some(77));
    assert_eq!(body.get("block_height").unwrap().as_u64(), Some(123456));
    assert_eq!(
        body.get("outpoint").unwrap().as_str().unwrap(),
        format!("{}:2", "0a".repeat(32))
    );
    assert_eq!(body.get("rune_id").unwrap().as_str().unwrap(), "840000:3");
    assert_eq!(body.get("txid").unwrap().as_str().unwrap(), "0b".repeat(32));
    assert_eq!(body.as_object().unwrap().len(), 6);
}

#[test]
fn absent_location_is_json_null() {
    let event = Event::InscriptionCreated {
        block_hash: BlockHash { bytes: [0; 32] },
        block_height: 1,
        charms: 0,
        inscription_id: InscriptionId { txid: Txid { bytes: [1; 32] }, index: 0 },
        location: None,
        parent_inscription_ids: vec![],
        sequence_number: 7,
    };
    let value: serde_json::Value = serde_json::from_slice(&payload(&event)).unwrap();
    let body = value.get("InscriptionCreated").unwrap();
    assert!(body.get("location").unwrap().is_null());
    assert_eq!(body.get("parent_inscription_ids").unwrap().as_array().unwrap().len(), 0);
    assert_eq!(body.get("sequence_number").unwrap().as_u64(), Some(7));
}

#[test]
fn decode_rejects_what_is_no_payload() {
    let event = all_six().remove(4);
    let good = payload_string(&event);
    assert!(decode(good.as_bytes()).is_some());
    assert!(decode(b"").is_none());
    assert!(decode(b"{}").is_none());
    assert!(decode(format!("{} ", good).as_bytes()).is_none());
    assert!(decode(format!(" {}", good).as_bytes()).is_none());
    assert!(decode(good[..good.len() - 1].as_bytes()).is_none());
    assert!(decode(good.replace("\"amount\":0", "\"amount\":00").as_bytes()).is_none());
    assert!(decode(good.replace("\"amount\":0", "\"amount\":-1").as_bytes()).is_none());
    assert!(decode(good.replace("\"block_height\":10", "\"block_height\":4294967296").as_bytes())
        .is_none());
    assert!(decode(good.replace("RuneMinted", "RuneForged").as_bytes()).is_none());
    assert!(decode(good.to_uppercase().as_bytes()).is_none());
    let mut high = good.clone().into_bytes();
    high[5] = 0xc3;
    assert!(decode(&high).is_none());
}

#[test]
fn decode_takes_the_largest_amount_and_no_more() {
    let event = Event::RuneBurned {
        block_hash: BlockHash { bytes: [0; 32] },
        amount: u128::MAX,
        block_height: 0,
        rune_id: RuneId { block: 0, tx: 0 },
        txid: Txid { bytes: [0; 32] },
    };
    let good = payload_string(&event);
    assert_eq!(decode(good.as_bytes()), Some(event));
    let over = good.replace(
        "340282366920938463463374607431768211455",
        "340282366920938463463374607431768211456",
    );
    assert!(decode(over.as_bytes()).is_none());
    let longer = good.replace(
        "340282366920938463463374607431768211455",
        "3402823669209384634633746074317682114550",
    );
    assert!(decode(longer.as_bytes()).is_none());
}

#[test]
fn kinds_and_heights() {
    let events = all_six();
    assert_eq!(events[0].kind(), EventKind::InscriptionCreated);
    assert_eq!(events[1].kind(), EventKind::InscriptionTransferred);
    assert_eq!(events[2].kind(), EventKind::RuneBurned);
    assert_eq!(events[3].kind(), EventKind::RuneEtched);
    assert_eq!(events[4].kind(), EventKind::RuneMinted);
    assert_eq!(events[5].kind(), EventKind::RuneTransferred);
    assert_eq!(events[1].block_height(), 4294967295);
    assert_eq!(events[2].block_hash(), BlockHash { bytes: hash(11) });
}
