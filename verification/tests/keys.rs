use ord_stream::event::Event;
use ord_stream::ids::{BlockHash, InscriptionId, OutPoint, RuneId, SatPoint, Txid};
use ord_stream::key::{kind_str, partition_key};
use ord_stream::event::EventKind;

fn txid(byte: u8) -> Txid {
    Txid { bytes: [byte; 32] }
}

fn block(byte: u8) -> BlockHash {
    BlockHash { bytes: [byte; 32] }
}

fn place(byte: u8) -> SatPoint {
    SatPoint { outpoint: OutPoint { txid: txid(byte), vout: 0 }, offset: 0 }
}

fn created(height: u32, id: InscriptionId) -> Event {
    Event::InscriptionCreated {
        block_hash: block(9),
        block_height: height,
        charms: 0,
        inscription_id: id,
        location: None,
        parent_inscription_ids: vec![],
        sequence_number: 0,
    }
}

#[test]
fn key_of_each_kind() {
    let id = InscriptionId { txid: txid(0xab), index: 3 };
    let rune = RuneId { block: 840000, tx: 7 };
    let t = "cd".repeat(32);
    let i = format!("{}i3", "ab".repeat(32));
    assert_eq!(partition_key(&created(5, id)), format!("InscriptionCreated_5_{}", i));
    assert_eq!(
        partition_key(&Event::InscriptionTransferred {
            block_hash: block(1),
            block_height: 6,
            inscription_id: id,
            new_location: place(1),
            old_location: place(2),
            sequence_number: 1,
        }),
        format!("InscriptionTransferred_6_{}", i)
    );
    assert_eq!(
        partition_key(&Event::RuneBurned {
            block_hash: block(1),
            amount: 1,
            block_height: 7,
            rune_id: rune,
            txid: txid(0xcd),
        }),
        format!("RuneBurned_7_840000:7_{}", t)
    );
    assert_eq!(
        partition_key(&Event::RuneEtched {
            block_hash: block(1),
            block_height: 8,
            rune_id: rune,
            txid: txid(0xcd),
        }),
        format!("RuneEtched_8_840000:7_{}", t)
    );
    assert_eq!(
        partition_key(&Event::RuneMinted {
            block_hash: block(1),
            amount: 1,
            block_height: 9,
            rune_id: rune,
            txid: txid(0xcd),
        }),
        format!("RuneMinted_9_840000:7_{}", t)
    );
    assert_eq!(
        partition_key(&Event::RuneTransferred {
            block_hash: block(1),
            amount: 1,
            block_height: 10,
            outpoint: OutPoint { txid: txid(3), vout: 1 },
            rune_id: rune,
            txid: txid(0xcd),
        }),
        format!("RuneTransferred_10_840000:7_{}", t)
    );
}

#[test]
fn key_is_the_same_for_the_same_event() {
    let event = created(840000, InscriptionId { txid: txid(1), index: 0 });
    assert_eq!(partition_key(&event), partition_key(&event.clone()));
}

#[test]
fn key_leaves_out_what_is_no_part_of_the_entity() {
    let id = InscriptionId { txid: txid(1), index: 0 };
    let a = created(1, id);
    let b = Event::InscriptionCreated {
        block_hash: block(77),
        block_height: 1,
        charms: 12,
        inscription_id: id,
        location: Some(place(5)),
        parent_inscription_ids: vec![InscriptionId { txid: txid(2), index: 1 }],
        sequence_number: 99,
    };
    assert_eq!(partition_key(&a), partition_key(&b));
}

#[test]
fn keys_differ_where_kind_height_or_entity_differ() {
    let mut keys: Vec<String> = Vec::new();
    for height in [0u32, 1, 10, 11, 101, 840000, 4294967295] {
        for byte in [0u8, 1, 0x10, 0xff] {
            for index in [0u32, 1, 10, 11] {
                let id = InscriptionId { txid: txid(byte), index };
                keys.push(partition_key(&created(height, id)));
                keys.push(partition_key(&Event::InscriptionTransferred {
                    block_hash: block(0),
                    block_height: height,
                    inscription_id: id,
                    new_location: place(0),
                    old_location: place(0),
                    sequence_number: 0,
                }));
                let rune_id = RuneId { block: index as u64, tx: byte as u32 };
                keys.push(partition_key(&Event::RuneBurned {
                    block_hash: block(0),
                    amount: 0,
                    block_height: height,
                    rune_id,
                    txid: txid(byte),
                }));
                keys.push(partition_key(&Event::RuneEtched {
                    block_hash: block(0),
                    block_height: height,
                    rune_id,
                    txid: txid(byte),
                }));
                keys.push(partition_key(&Event::RuneMinted {
                    block_hash: block(0),
                    amount: 0,
                    block_height: height,
                    rune_id,
                    txid: txid(byte),
                }));
                keys.push(partition_key(&Event::RuneTransferred {
                    block_hash: block(0),
                    amount: 0,
                    block_height: height,
                    outpoint: OutPoint { txid: txid(0), vout: 0 },
                    rune_id,
                    txid: txid(byte),
                }));
            }
        }
    }
    let count = keys.len();
    keys.sort();
    keys.dedup();
    assert_eq!(keys.len(), count);
    assert_eq!(count, 7 * 4 * 4 * 6);
}

#[test]
fn rune_keys_tell_transactions_apart() {
    let rune_id = RuneId { block: 1, tx: 1 };
    let mint = |byte: u8| Event::RuneMinted {
        block_hash: block(0),
        amount: 500,
        block_height: 840000,
        rune_id,
        txid: txid(byte),
    };
    assert_ne!(partition_key(&mint(1)), partition_key(&mint(2)));
}

#[test]
fn kind_names() {
    assert_eq!(kind_str(EventKind::InscriptionCreated), "InscriptionCreated");
    assert_eq!(kind_str(EventKind::InscriptionTransferred), "InscriptionTransferred");
    assert_eq!(kind_str(EventKind::RuneBurned), "RuneBurned");
    assert_eq!(kind_str(EventKind::RuneEtched), "RuneEtched");
    assert_eq!(kind_str(EventKind::RuneMinted), "RuneMinted");
    assert_eq!(kind_str(EventKind::RuneTransferred), "RuneTransferred");
}
