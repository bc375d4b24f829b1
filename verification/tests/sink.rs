use tron_vanity::address::TronAddress;
use tron_vanity::sink::format_record;

#[test]
fn record_block_layout() {
    let rec = TronAddress {
        address: b"TABCzz".to_vec(),
        private_key: b"0a1f".to_vec(),
        same_chars_count: 12,
    };
    let block = format_record(&rec);
    assert_eq!(block, b"addr: TABCzz\nkey: 0a1f\nrun: 12\n---\n".to_vec());
}

#[test]
fn record_block_single_digit_count() {
    let rec =
        TronAddress { address: b"T1".to_vec(), private_key: b"ff".to_vec(), same_chars_count: 0 };
    assert_eq!(format_record(&rec), b"addr: T1\nkey: ff\nrun: 0\n---\n".to_vec());
}

#[test]
fn record_block_large_count() {
    let rec = TronAddress {
        address: b"T".to_vec(),
        private_key: b"00".to_vec(),
        same_chars_count: 305419896,
    };
    assert_eq!(format_record(&rec), b"addr: T\nkey: 00\nrun: 305419896\n---\n".to_vec());
}
