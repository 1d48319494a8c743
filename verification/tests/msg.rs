use libzmq::Error;
use libzmq::Group;
use libzmq::Msg;
use libzmq::RoutingId;

#[test]
fn new_envelope_is_empty() {
    let msg = Msg::new();
    assert!(msg.is_empty());
    assert_eq!(msg.len(), 0);
    assert!(msg.as_bytes().is_empty());
    assert!(msg.routing_id().is_none());
    assert!(msg.group().is_none());
    assert!(!msg.has_more());
}

#[test]
fn default_envelope_is_empty() {
    let msg = Msg::default();
    assert!(msg.is_empty());
    assert_eq!(msg.len(), 0);
}

#[test]
fn with_size_zero_fills() {
    let size = 420;
    let msg = Msg::with_size(size);
    assert_eq!(msg.len(), size);
    assert!(msg.as_bytes().iter().all(|&b| b == 0));
    let empty = Msg::with_size(0);
    assert!(empty.is_empty());
}

#[test]
fn copying_a_slice() {
    let bytes: &[u8] = b"blzit";
    let msg = Msg::from_slice(bytes);
    assert_eq!(msg.len(), bytes.len());
    assert_eq!(msg.as_bytes(), bytes);
    assert!(msg.routing_id().is_none());
    assert!(msg.group().is_none());
}

#[test]
fn adopting_a_buffer() {
    let v = vec![1u8, 2, 3, 4];
    let msg = Msg::from_vec(v.clone());
    assert_eq!(msg.len(), v.len());
    assert_eq!(msg.as_bytes(), v.as_slice());
}

#[test]
fn adopting_an_empty_buffer() {
    let msg = Msg::from_vec(Vec::new());
    assert_eq!(msg.len(), 0);
    assert!(msg.is_empty());
}

#[test]
fn text_round_trip() {
    let text = "blzit";
    let msg = Msg::from_str(text);
    assert_eq!(msg.to_str(), Ok(text));
    assert_eq!(msg.as_bytes(), text.as_bytes());
}

#[test]
fn owned_text_is_adopted() {
    let msg = Msg::from_string(String::from("hello"));
    assert_eq!(msg.as_bytes(), b"hello".as_slice());
    assert_eq!(msg.to_str(), Ok("hello"));
}

#[test]
fn non_utf8_content_is_not_text() {
    let msg = Msg::from_slice(&[0xff, 0xfe]);
    assert_eq!(msg.to_str(), Err(Error::TextEncodingError));
}

#[test]
fn arrays_convert() {
    let msg = Msg::from_array([7u8; 3]);
    assert_eq!(msg.as_bytes(), [7u8, 7, 7].as_slice());
    let empty = Msg::from_array([0u8; 0]);
    assert!(empty.is_empty());
}

#[test]
fn routing_id_round_trip() {
    let mut msg = Msg::new();
    assert!(msg.routing_id().is_none());
    let id = RoutingId::from_raw(0xdead_beef);
    assert_eq!(msg.set_routing_id(id), Ok(()));
    assert_eq!(msg.routing_id(), Some(id));
    assert_eq!(msg.routing_id().unwrap().raw(), 0xdead_beef);
}

#[test]
fn zero_routing_id_is_rejected() {
    let mut msg = Msg::new();
    let id = RoutingId::from_raw(1);
    assert_eq!(msg.set_routing_id(id), Ok(()));
    let zero = RoutingId::from_raw(0);
    assert_eq!(msg.set_routing_id(zero), Err(Error::InvalidInput));
    assert_eq!(msg.routing_id(), Some(id));
}

#[test]
fn group_round_trip() {
    let mut msg = Msg::from_str("some msg");
    assert!(msg.group().is_none());
    let a = Group::new("A").unwrap();
    msg.set_group(a.clone());
    assert_eq!(msg.group(), Some(&a));
    assert_eq!(msg.group().unwrap().as_str(), "A");
    assert_eq!(msg.as_bytes(), b"some msg".as_slice());
}

#[test]
fn failed_group_validation_leaves_previous_group() {
    let mut msg = Msg::from_str("some msg");
    let old = Group::new("old").unwrap();
    msg.set_group(old.clone());
    let too_long = Group::new("abcdefghijklmnop");
    assert_eq!(too_long, Err(Error::InvalidInput));
    assert_eq!(msg.group(), Some(&old));
}

#[test]
fn clone_copies_content_into_a_distinct_handle() {
    let mut original = Msg::from_str("payload");
    original.set_routing_id(RoutingId::from_raw(3)).unwrap();
    original.set_group(Group::new("g").unwrap());
    let cloned = original.clone();
    assert_eq!(cloned.as_bytes(), original.as_bytes());
    assert_eq!(cloned.routing_id(), original.routing_id());
    assert_eq!(cloned.group(), original.group());
    assert!(!cloned.is_same(&original));
    assert!(original.is_same(&original));
}

#[test]
fn mutable_access_overwrites_in_place() {
    let mut msg = Msg::from_slice(b"abc");
    {
        let bytes = msg.as_bytes_mut();
        bytes[0] = b'x';
    }
    assert_eq!(msg.as_bytes(), b"xbc".as_slice());
    assert_eq!(msg.len(), 3);
}

#[test]
fn test_cast_routing_id_slice() {
    assert_eq!(std::mem::size_of::<u32>(), std::mem::size_of::<RoutingId>());
    let routing_stack: &[u32] = &[1, 2, 3, 4];

    // Rebuild the raw values as a stack of identifiers.
    let cast_stack: Vec<RoutingId> =
        routing_stack.iter().map(|&i| RoutingId::from_raw(i)).collect();

    for (&i, &j) in routing_stack.iter().zip(cast_stack.iter()) {
        assert_eq!(i, j.raw());
    }
}

#[test]
fn error_descriptions_differ() {
    let invalid = Error::InvalidInput.description_text();
    let encoding = Error::TextEncodingError.description_text();
    assert_ne!(invalid, encoding);
}
