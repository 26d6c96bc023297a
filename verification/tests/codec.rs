use marketplace::error::MarketplaceError;
use marketplace::instruction::MarketplaceInstruction;

fn le_bytes(price: u64) -> Vec<u8> {
    let mut v: Vec<u8> = Vec::new();
    let mut x: u64 = price;
    for _ in 0..8 {
        v.push((x % 256) as u8);
        x /= 256;
    }
    v
}

fn encode(tag: u8, price: u64) -> Vec<u8> {
    let mut v = vec![tag];
    v.extend(le_bytes(price));
    v
}

#[test]
fn round_trip_list() {
    for price in [0u64, 1, 1000, 0x0102030405060708, u64::MAX] {
        let packed = MarketplaceInstruction::ListNFT { price }.pack();
        assert_eq!(packed, encode(0, price));
        assert_eq!(
            MarketplaceInstruction::unpack(&packed),
            Ok(MarketplaceInstruction::ListNFT { price })
        );
    }
}

#[test]
fn round_trip_purchase() {
    for price in [0u64, 1, 1000, 0xFFFF_FFFF_0000_0001, u64::MAX] {
        let packed = MarketplaceInstruction::PurchaseNFT { price }.pack();
        assert_eq!(packed, encode(1, price));
        assert_eq!(
            MarketplaceInstruction::unpack(&packed),
            Ok(MarketplaceInstruction::PurchaseNFT { price })
        );
    }
}

#[test]
fn exact_wire_bytes() {
    let packed = MarketplaceInstruction::ListNFT { price: 1000 }.pack();
    assert_eq!(packed, vec![0, 232, 3, 0, 0, 0, 0, 0, 0]);
    let packed = MarketplaceInstruction::PurchaseNFT { price: 1 }.pack();
    assert_eq!(packed, vec![1, 1, 0, 0, 0, 0, 0, 0, 0]);
}

#[test]
fn empty_input_is_unrecognized() {
    assert_eq!(
        MarketplaceInstruction::unpack(&[]),
        Err(MarketplaceError::UnrecognizedInstruction)
    );
}

#[test]
fn short_input_is_truncated() {
    for len in 1..9 {
        let buf = vec![0u8; len];
        assert_eq!(
            MarketplaceInstruction::unpack(&buf),
            Err(MarketplaceError::TruncatedPayload),
            "length {}",
            len
        );
        // A truncated payload is reported before the tag is examined.
        let mut odd = vec![9u8];
        odd.extend(vec![0u8; len - 1]);
        assert_eq!(
            MarketplaceInstruction::unpack(&odd),
            Err(MarketplaceError::TruncatedPayload)
        );
    }
}

#[test]
fn unknown_tag_is_unrecognized() {
    for tag in [2u8, 3, 7, 128, 255] {
        let buf = encode(tag, 42);
        assert_eq!(
            MarketplaceInstruction::unpack(&buf),
            Err(MarketplaceError::UnrecognizedInstruction)
        );
    }
}

#[test]
fn trailing_bytes_are_ignored() {
    let mut buf = encode(1, 77);
    buf.extend([9u8, 9, 9]);
    assert_eq!(
        MarketplaceInstruction::unpack(&buf),
        Ok(MarketplaceInstruction::PurchaseNFT { price: 77 })
    );
}
