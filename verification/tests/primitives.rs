use os_reader::bag::InherentIdentifier;
use os_reader::primitives::error::{InherentDataError, InherentError};
use os_reader::primitives::os_value::{InherentType, OsReader};
use os_reader::primitives::provider::{InherentDataProvider, OsReaderInherentData};
use os_reader::primitives::{is_own_identifier, INHERENT_IDENTIFIER};
use parity_scale_codec::{Decode, Encode};
use sp_inherents::InherentData;

const FOREIGN: InherentIdentifier = *b"timstap0";

#[test]
fn identifier_is_the_bytes_of_osreader() {
    assert_eq!(&INHERENT_IDENTIFIER, b"osreader");
    assert_eq!(INHERENT_IDENTIFIER.len(), 8);
}

#[test]
fn own_identifier_is_recognised() {
    assert!(is_own_identifier(&INHERENT_IDENTIFIER));
    assert!(is_own_identifier(b"osreader"));
}

#[test]
fn foreign_identifier_is_not_recognised() {
    assert!(!is_own_identifier(&FOREIGN));
    assert!(!is_own_identifier(b"osreadeR"));
    assert!(!is_own_identifier(b"Osreader"));
    assert!(!is_own_identifier(&[0u8; 8]));
}

#[test]
fn os_reader_wraps_and_unwraps_bytes() {
    let value = OsReader::new(vec![1, 2, 3]);
    assert_eq!(*value, vec![1, 2, 3]);
    assert_eq!(value.len(), 3);
    let copy = value.clone();
    assert_eq!(*copy, vec![1, 2, 3]);
    let inner: Vec<u8> = value.into();
    assert_eq!(inner, vec![1, 2, 3]);
    let from: InherentType = vec![9u8].into();
    assert_eq!(*from, vec![9]);
    assert_eq!(*OsReader::default(), Vec::<u8>::new());
}

#[test]
fn current_value_keeps_plain_text() {
    assert_eq!(OsReader::current_value(b"ok"), b"ok".to_vec());
}

#[test]
fn current_value_trims_whitespace_around() {
    assert_eq!(OsReader::current_value(b"  ok\n"), b"ok".to_vec());
    assert_eq!(OsReader::current_value(b"\t1 2 3\r\n"), b"1 2 3".to_vec());
    assert_eq!(OsReader::current_value(b"a b"), b"a b".to_vec());
}

#[test]
fn current_value_of_nothing_is_empty() {
    assert_eq!(OsReader::current_value(b""), Vec::<u8>::new());
    assert_eq!(OsReader::current_value(b" \n\t "), Vec::<u8>::new());
}

#[test]
fn current_value_replaces_invalid_bytes() {
    // 0xff is never valid UTF-8: it becomes U+FFFD, which is ef bf bd.
    assert_eq!(OsReader::current_value(&[b'a', 0xff, b'b']), vec![b'a', 0xef, 0xbf, 0xbd, b'b']);
    assert_eq!(OsReader::current_value(&[0xff]), vec![0xef, 0xbf, 0xbd]);
}

#[test]
fn current_value_keeps_valid_multibyte_text() {
    let text = "gr\u{fc}n".as_bytes();
    assert_eq!(OsReader::current_value(text), text.to_vec());
}

#[test]
fn current_value_of_a_value_is_that_value() {
    for output in [&b"  ok\n"[..], b"a\tb ", b"", b"\n", "gr\u{fc}n \n".as_bytes()] {
        let once = OsReader::current_value(output);
        assert_eq!(OsReader::current_value(&once), once);
    }
}

#[test]
fn every_error_is_fatal() {
    assert!(InherentError::TooEarly.is_fatal_error());
    assert!(InherentError::TooFarInFuture.is_fatal_error());
}

#[test]
fn error_wire_form_is_the_variant_position() {
    assert_eq!(InherentError::TooEarly.encode(), vec![0]);
    assert_eq!(InherentError::TooFarInFuture.encode(), vec![1]);
    assert_eq!(InherentError::TooEarly.encode(), 0u8.encode());
    assert_eq!(InherentError::TooFarInFuture.encode(), 1u8.encode());
}

#[test]
fn error_decodes_from_first_byte() {
    assert_eq!(InherentError::decode(&[0]), Some(InherentError::TooEarly));
    assert_eq!(InherentError::decode(&[1]), Some(InherentError::TooFarInFuture));
    assert_eq!(InherentError::decode(&[1, 7, 7]), Some(InherentError::TooFarInFuture));
    assert_eq!(InherentError::decode(&[0, 255]), Some(InherentError::TooEarly));
}

#[test]
fn error_does_not_decode_from_other_bytes() {
    assert_eq!(InherentError::decode(&[]), None);
    assert_eq!(InherentError::decode(&[2]), None);
    assert_eq!(InherentError::decode(&[255, 0]), None);
}

#[test]
fn error_round_trips() {
    for error in [InherentError::TooEarly, InherentError::TooFarInFuture] {
        assert_eq!(InherentError::decode(&error.encode()), Some(error));
        assert_eq!(InherentError::try_from(&INHERENT_IDENTIFIER, &error.encode()), Some(error));
    }
}

#[test]
fn try_from_reads_only_own_reports() {
    assert_eq!(
        InherentError::try_from(&INHERENT_IDENTIFIER, &[0]),
        Some(InherentError::TooEarly)
    );
    assert_eq!(
        InherentError::try_from(&INHERENT_IDENTIFIER, &[1]),
        Some(InherentError::TooFarInFuture)
    );
    assert_eq!(InherentError::try_from(&FOREIGN, &[0]), None);
    assert_eq!(InherentError::try_from(&FOREIGN, &[1]), None);
    assert_eq!(InherentError::try_from(&INHERENT_IDENTIFIER, &[]), None);
    assert_eq!(InherentError::try_from(&INHERENT_IDENTIFIER, &[9]), None);
}

#[test]
fn provider_holds_the_value_of_the_output() {
    let provider = InherentDataProvider::from_current_os_value(b"ok\n");
    assert_eq!(*provider.os_value(), b"ok".to_vec());
    assert_eq!(**provider, b"ok".to_vec());
    let provider = InherentDataProvider::new(b" 42 ");
    assert_eq!(*provider.os_value(), b"42".to_vec());
}

#[test]
fn provider_puts_the_encoded_value_into_the_bag() {
    let provider = InherentDataProvider::new(b"ok");
    let mut bag = InherentData::new();
    assert_eq!(provider.provide_inherent_data(&mut bag), Ok(()));
    assert_eq!(bag.len(), 1);
    assert_eq!(bag.identifiers().collect::<Vec<_>>(), vec![&INHERENT_IDENTIFIER]);
    // Length 2 in compact form is one byte, 2 << 2; the bytes follow.
    let raw = bag.encode();
    let held = <Vec<([u8; 8], Vec<u8>)>>::decode(&mut &raw[..]).unwrap();
    assert_eq!(held, vec![(INHERENT_IDENTIFIER, vec![8, b'o', b'k'])]);
    assert_eq!(bag.get_data::<Vec<u8>>(&INHERENT_IDENTIFIER).unwrap(), Some(b"ok".to_vec()));
}

#[test]
fn provider_leaves_other_entries_alone() {
    let provider = InherentDataProvider::new(b"ok");
    let mut bag = InherentData::new();
    bag.put_data(FOREIGN, &7u64).unwrap();
    assert_eq!(provider.provide_inherent_data(&mut bag), Ok(()));
    assert_eq!(bag.len(), 2);
    assert_eq!(bag.get_data::<u64>(&FOREIGN).unwrap(), Some(7));
    assert_eq!(bag.osreader_inherent_data().unwrap().map(|v| v.to_vec()), Some(b"ok".to_vec()));
}

#[test]
fn provider_fails_on_a_bag_that_holds_the_entry() {
    let first = InherentDataProvider::new(b"one");
    let second = InherentDataProvider::new(b"two");
    let mut bag = InherentData::new();
    assert_eq!(first.provide_inherent_data(&mut bag), Ok(()));
    assert_eq!(
        second.provide_inherent_data(&mut bag),
        Err(InherentDataError::InherentDataExists(INHERENT_IDENTIFIER))
    );
    assert_eq!(bag.len(), 1);
    assert_eq!(bag.get_data::<Vec<u8>>(&INHERENT_IDENTIFIER).unwrap(), Some(b"one".to_vec()));
}

#[test]
fn provider_puts_a_long_value() {
    let output = vec![b'x'; 100];
    let provider = InherentDataProvider::new(&output);
    let mut bag = InherentData::new();
    assert_eq!(provider.provide_inherent_data(&mut bag), Ok(()));
    // Length 100 in compact form takes two bytes: (100 << 2) + 1, low byte first.
    let (low, high, rest) =
        bag.get_data::<(u8, u8, [u8; 100])>(&INHERENT_IDENTIFIER).unwrap().unwrap();
    assert_eq!((low, high), (0x91, 0x01));
    assert_eq!(rest.to_vec(), output);
    assert_eq!(bag.osreader_inherent_data().unwrap().map(|v| v.to_vec()), Some(output));
}

#[test]
fn provider_puts_an_empty_value() {
    let provider = InherentDataProvider::new(b"");
    let mut bag = InherentData::new();
    assert_eq!(provider.provide_inherent_data(&mut bag), Ok(()));
    assert_eq!(bag.osreader_inherent_data().unwrap().map(|v| v.to_vec()), Some(vec![]));
}

#[test]
fn reading_an_empty_bag_finds_nothing() {
    let bag = InherentData::new();
    assert!(matches!(bag.osreader_inherent_data(), Ok(None)));
}

#[test]
fn reading_a_bag_with_only_foreign_entries_finds_nothing() {
    let mut bag = InherentData::new();
    bag.put_data(FOREIGN, &b"ok".to_vec()).unwrap();
    assert!(matches!(bag.osreader_inherent_data(), Ok(None)));
}

#[test]
fn reading_a_malformed_entry_fails() {
    // A length prefix of 5 with two bytes behind it.
    let mut bag = InherentData::new();
    bag.put_data(INHERENT_IDENTIFIER, &(20u8, b'o', b'k')).unwrap();
    assert!(matches!(
        bag.osreader_inherent_data(),
        Err(InherentDataError::DecodingFailed(id)) if id == INHERENT_IDENTIFIER
    ));
    // No bytes at all.
    let mut bag = InherentData::new();
    bag.put_data(INHERENT_IDENTIFIER, &()).unwrap();
    assert!(matches!(bag.osreader_inherent_data(), Err(InherentDataError::DecodingFailed(_))));
}

#[test]
fn reading_gives_back_what_was_put() {
    for value in [vec![], vec![0u8], b"ok".to_vec(), vec![7u8; 64], vec![1u8; 20000]] {
        let mut bag = InherentData::new();
        bag.put_data(INHERENT_IDENTIFIER, &value).unwrap();
        let found = bag.osreader_inherent_data().unwrap().unwrap();
        assert_eq!(*found, value);
    }
}

#[test]
fn handling_an_own_report_gives_the_error() {
    let provider = InherentDataProvider::new(b"ok");
    assert_eq!(
        provider.try_handle_error(&INHERENT_IDENTIFIER, &[0]),
        Some(Err(InherentDataError::Application(InherentError::TooEarly)))
    );
    assert_eq!(
        provider.try_handle_error(&INHERENT_IDENTIFIER, &[1]),
        Some(Err(InherentDataError::Application(InherentError::TooFarInFuture)))
    );
}

#[test]
fn handling_a_foreign_or_unreadable_report_gives_nothing() {
    let provider = InherentDataProvider::new(b"ok");
    assert_eq!(provider.try_handle_error(&FOREIGN, &[0]), None);
    assert_eq!(provider.try_handle_error(&INHERENT_IDENTIFIER, &[]), None);
    assert_eq!(provider.try_handle_error(&INHERENT_IDENTIFIER, &[2]), None);
}
