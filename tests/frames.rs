use ips::address::{Address, Admin, Transmission};
use ips::ethernet::{EtherType, EthernetBase, DOT1Q, IPV4, QINQ};
use ips::payload;
use ips::physical::Size;
use ips::vlan::{self, Identifier, PriorityLevel, Stacked, Tag};

#[test]
fn it_works() {
    assert_eq!(2 + 2, 4);
}

#[test]
fn tag_packs_fields_into_bits() {
    let id = Identifier::new(5).unwrap();
    let tag = Tag::new(id, PriorityLevel::Voice, true);
    assert_eq!(tag.get(), 0xB005);
    assert_eq!(tag.priority(), PriorityLevel::Voice);
    assert!(tag.drop_eligible());
    assert_eq!(tag.identifier().get(), 5);
}

#[test]
fn tag_round_trips_every_priority() {
    let levels = [
        PriorityLevel::Background,
        PriorityLevel::BestEffort,
        PriorityLevel::ExcellentEffort,
        PriorityLevel::CriticalApplications,
        PriorityLevel::Video,
        PriorityLevel::Voice,
        PriorityLevel::InternetworkControl,
        PriorityLevel::NetworkControl,
    ];
    for p in levels {
        for d in [false, true] {
            for v in [0u16, 1, 0x7FF, 0xFFE, 0xFFF] {
                let t = Tag::new(Identifier::new(v).unwrap(), p, d);
                assert_eq!(t.priority(), p);
                assert_eq!(t.drop_eligible(), d);
                assert_eq!(t.identifier().get(), v);
            }
        }
    }
}

#[test]
fn raw_tag_decodes_top_bits() {
    let t = Tag::raw(0xE000);
    assert_eq!(t.priority(), PriorityLevel::NetworkControl);
    assert!(!t.drop_eligible());
    assert_eq!(t.identifier(), Identifier::none());
    let u = Tag::raw(0x1FFF);
    assert_eq!(u.priority(), PriorityLevel::Background);
    assert!(u.drop_eligible());
    assert_eq!(u.identifier(), Identifier::reserved());
}

#[test]
fn identifier_range() {
    assert!(Identifier::new(0x1000).is_none());
    assert!(Identifier::new(0xFFFF).is_none());
    assert_eq!(Identifier::new(0xFFF).unwrap().get(), 0xFFF);
    assert_eq!(Identifier::new(0).unwrap(), Identifier::none());
    assert_eq!(Identifier::new_unchecked(42).get(), 42);
}

#[test]
fn priority_default_is_best_effort() {
    assert_eq!(PriorityLevel::default(), PriorityLevel::BestEffort);
}

#[test]
fn stacked_size_adds_tag_and_remainder() {
    let tag = Tag::raw(1);
    let one = Stacked { tag, remainder: Tag::raw(2) };
    assert_eq!(one.size(), 8);
    let two = Stacked { tag, remainder: one };
    assert_eq!(two.size(), 4 + one.size());
    let empty = Stacked { tag, remainder: vlan::Empty };
    assert_eq!(empty.size(), 4);
    assert_eq!(vlan::Empty.size(), 0);
    assert_eq!(Tag::raw(0).size(), 4);
}

#[test]
fn value_padding_size() {
    let z = payload::ValuePadding::zero(5);
    assert_eq!(z.value, 0);
    assert_eq!(z.length, 5);
    let p = payload::ValuePadding { value: Tag::raw(0), length: 3 };
    assert_eq!(p.size(), 12);
    let e = payload::ValuePadding { value: Tag::raw(0), length: 0 };
    assert_eq!(e.size(), 0);
}

#[test]
fn consume_drops_leading_bytes() {
    let buf = [1u8, 2, 3, 4, 5];
    let u = payload::Unknown(&buf[..]);
    let r = u.consume(2);
    assert_eq!(r.len(), 3);
    assert_eq!(r.0, &[3u8, 4, 5][..]);
    assert_eq!(u.consume(0).0, &buf[..]);
    assert_eq!(u.consume(5).len(), 0);
    assert_eq!(u.consume_unchecked(4).0, &[5u8][..]);
}

#[test]
fn padded_split() {
    let buf = [1u8, 2, 3, 4, 5];
    let u = payload::Unknown(&buf[..]);
    let p = u.try_as_padded_any(3).unwrap();
    assert_eq!(p.payload.0, &[1u8, 2, 3][..]);
    assert_eq!(p.padding, &[4u8, 5][..]);
    assert!(u.try_as_padded_any(6).is_none());
    let q = u.as_padded_any(5);
    assert_eq!(q.payload.size(), 5);
    assert_eq!(q.padding.len(), 0);
    let a: payload::Any = u.into();
    assert_eq!(a.0, &buf[..]);
    let back: payload::Unknown = a.into();
    assert_eq!(back, u);
}

fn header(tol: u16, rest: &[u8]) -> Vec<u8> {
    let mut v = vec![0x01, 0x02, 0x03, 0x04, 0x05, 0x06, 0x12, 0x34, 0x56, 0x78, 0x9A, 0xBC];
    v.push((tol >> 8) as u8);
    v.push((tol & 0xFF) as u8);
    v.extend_from_slice(rest);
    v
}

#[test]
fn parse_needs_fourteen_bytes() {
    let v = header(0x0800, &[]);
    assert!(EthernetBase::parse(payload::Unknown(&v[..13])).is_err());
    assert!(EthernetBase::parse(payload::Unknown(&[])).is_err());
    let b = EthernetBase::parse(payload::Unknown(&v[..])).unwrap();
    assert_eq!(b.destination.get(), [0x01, 0x02, 0x03, 0x04, 0x05, 0x06]);
    assert_eq!(b.source.get(), [0x12, 0x34, 0x56, 0x78, 0x9A, 0xBC]);
    assert_eq!(b.type_or_length, 0x0800);
    assert_eq!(b.length(), 0x0800);
    assert_eq!(b.ethertype(), EtherType(0x0800));
    assert_eq!(b.payload.len(), 0);
}

#[test]
fn parse_keeps_bytes_after_header() {
    let v = header(0x1234, &[9, 8, 7]);
    let b = EthernetBase::parse_unchecked(payload::Unknown(&v[..]));
    assert_eq!(b.type_or_length, 0x1234);
    assert_eq!(b.payload.0, &[9u8, 8, 7][..]);
}

#[test]
fn length_field_splits_payload_and_padding() {
    let body: Vec<u8> = (0..60u8).collect();
    let v = header(46, &body);
    let b = EthernetBase::parse(payload::Unknown(&v[..])).unwrap();
    let b = b.map_vlan_no_payload(|t, _| (t, vlan::Empty));
    let e = b.unwrap_ethernet();
    assert_eq!(e.payload.payload.0.len(), 46);
    assert_eq!(e.payload.payload.0, &body[..46]);
    assert_eq!(e.payload.padding, &body[46..]);
    assert_eq!(e.destination.get(), [0x01, 0x02, 0x03, 0x04, 0x05, 0x06]);
}

#[test]
fn length_past_end_is_an_error() {
    let v = header(47, &[0u8; 46]);
    let b = EthernetBase::parse(payload::Unknown(&v[..])).unwrap();
    let b = b.map_vlan_no_payload(|t, _| (t, vlan::Empty));
    assert!(b.try_unrwap_ethernet().is_err());
    let w = header(46, &[0u8; 46]);
    let c = EthernetBase::parse(payload::Unknown(&w[..])).unwrap();
    let c = c.map_vlan_no_payload(|t, _| (t, vlan::Empty));
    let e = c.try_unrwap_ethernet().ok().unwrap();
    assert_eq!(e.payload.payload.0.len(), 46);
    assert_eq!(e.payload.padding.len(), 0);
}

#[test]
fn ethertype_field_keeps_payload() {
    let v = header(IPV4, &[1, 2, 3, 4]);
    let b = EthernetBase::parse(payload::Unknown(&v[..])).unwrap();
    let b = b.map_vlan_no_payload(|t, _| (t, vlan::Empty));
    let e = b.unwrap_ethernet2();
    assert_eq!(e.etype, EtherType(0x0800));
    assert_eq!(e.payload.0, &[1u8, 2, 3, 4][..]);
    assert_eq!(e.vlan, vlan::Empty);
}

#[test]
fn single_tag_chain() {
    let buf = [0x00u8, 0x05, 0x08, 0x00, 0xAA];
    let (last, any, rest) = vlan::Any::parse(EtherType(DOT1Q), payload::Unknown(&buf[..])).unwrap();
    assert_eq!(last, 0x0800);
    assert_eq!(rest.0, &buf[2..]);
    assert_eq!(any.size(), 4);
    match any {
        vlan::Any::Present(h) => assert_eq!(h.first(), EtherType(DOT1Q)),
        vlan::Any::Absent => panic!("expected a VLAN header"),
    }
    let tag = any.unwrap_tag();
    assert_eq!(tag.identifier().get(), 5);
    assert_eq!(tag.priority(), PriorityLevel::Background);
    assert!(!tag.drop_eligible());
}

#[test]
fn stacked_tag_chain() {
    let buf = [0x00u8, 0x0A, 0x81, 0x00, 0x00, 0x0B, 0x08, 0x00];
    let (last, any, rest) = vlan::Any::parse(EtherType(QINQ), payload::Unknown(&buf[..])).unwrap();
    assert_eq!(last, 0x0800);
    assert_eq!(rest.0, &buf[6..]);
    assert_eq!(any.size(), 8);
    let stack = any.unwrap_stack();
    assert_eq!(stack.tag.identifier().get(), 10);
    let stack = stack.map_remainder(|r| r.unwrap_tag());
    assert_eq!(stack.remainder.identifier().get(), 11);
    assert_eq!(stack.size(), 8);
}

#[test]
fn double_qinq_chain() {
    let buf = [0x00u8, 0x01, 0x88, 0xA8, 0x00, 0x02, 0x81, 0x00, 0x00, 0x03, 0x86, 0xDD];
    let (last, any, rest) = vlan::Any::parse(EtherType(QINQ), payload::Unknown(&buf[..])).unwrap();
    assert_eq!(last, 0x86DD);
    assert_eq!(rest.0, &buf[10..]);
    let s = any.unwrap_stack();
    assert_eq!(s.tag.get(), 1);
    let s2 = s.remainder.unwrap_stack();
    assert_eq!(s2.tag.get(), 2);
    assert_eq!(s2.remainder.unwrap_tag().get(), 3);
}

#[test]
fn qinq_without_dot1q_is_malformed() {
    let buf = [0x00u8, 0x01, 0x88, 0xA8, 0x00, 0x02];
    assert_eq!(
        vlan::Any::parse(EtherType(QINQ), payload::Unknown(&buf[..])),
        Err(vlan::MalformedVlanError)
    );
    let buf2 = [0x00u8, 0x01, 0x88, 0xA8, 0x00, 0x02, 0x08, 0x00];
    assert!(vlan::Any::parse(EtherType(QINQ), payload::Unknown(&buf2[..])).is_err());
}

#[test]
fn vlan_type_in_final_position_is_malformed() {
    let buf = [0x00u8, 0x05, 0x81, 0x00, 0x00, 0x06, 0x08, 0x00];
    assert!(vlan::Any::parse(EtherType(DOT1Q), payload::Unknown(&buf[..])).is_err());
    let buf2 = [0x00u8, 0x05, 0x88, 0xA8];
    assert!(vlan::Any::parse(EtherType(DOT1Q), payload::Unknown(&buf2[..])).is_err());
}

#[test]
fn chain_running_out_is_malformed() {
    let buf = [0x00u8, 0x05, 0x08];
    assert!(vlan::Any::parse(EtherType(DOT1Q), payload::Unknown(&buf[..])).is_err());
    assert!(vlan::Any::parse(EtherType(DOT1Q), payload::Unknown(&[])).is_err());
}

#[test]
fn no_vlan_leaves_payload() {
    let buf = [1u8, 2, 3];
    let (last, any, rest) = vlan::Any::parse(EtherType(IPV4), payload::Unknown(&buf[..])).unwrap();
    assert_eq!(last, IPV4);
    assert_eq!(any, vlan::Any::Absent);
    assert_eq!(rest.0, &buf[..]);
    assert_eq!(any.size(), 0);
    assert_eq!(any.unwrap_empty(), vlan::Empty);
}

#[test]
fn frame_with_vlan_tag() {
    let v = header(DOT1Q, &[0x40, 0x07, 0x00, 0x2E, 0xFF]);
    let b = EthernetBase::parse(payload::Unknown(&v[..])).unwrap();
    let b = b
        .try_map_vlan(|t, _, p| vlan::Any::parse(EtherType(t), p).map(|(l, a, r)| (l, a, r.consume(2))))
        .unwrap();
    assert_eq!(b.type_or_length, 0x002E);
    assert_eq!(b.payload.0, &[0xFFu8][..]);
    let b = b.map_vlan_no_payload(|t, a| (t, a.unwrap_tag()));
    assert_eq!(b.vlan.identifier().get(), 7);
    assert_eq!(b.vlan.priority(), PriorityLevel::ExcellentEffort);
}

#[test]
fn address_classification() {
    let m = Address::new([0x01u8, 0, 0, 0, 0, 0]);
    assert!(m.is_multicast() && !m.is_unicast());
    assert!(m.is_universal() && !m.is_local());
    assert_eq!(m.transmission(), Transmission::Multicast);
    let l = Address::new([0x02u8, 0xFF, 0xFF, 0xFF, 0xFF, 0xFF]);
    assert!(l.is_unicast() && l.is_local());
    assert_eq!(l.admin(), Admin::Local);
    let b = Address::new([0xFCu8, 0, 0, 0, 0, 0]);
    assert!(b.is_unicast() && b.is_universal());
    let both = Address::new([0xFFu8, 0, 0, 0, 0, 0, 0, 0]);
    assert!(both.is_multicast() && both.is_local());
    assert!(Address::<[u8; 6]>::broadcast().is_multicast());
    assert!(Address::<[u8; 6]>::zero().is_unicast());
}

#[test]
fn address_bit_reversal() {
    let mut a = Address::new([0x01u8, 0x02, 0x00, 0x00, 0x00, 0x00]);
    a.reverse_bits();
    assert_eq!(a.get(), [0x00, 0x00, 0x00, 0x00, 0x40, 0x80]);
    let mut b = Address::new([0x0Fu8, 0, 0, 0, 0, 0, 0, 0x31]);
    b.reverse_bits();
    assert_eq!(b.get(), [0x8C, 0, 0, 0, 0, 0, 0, 0xF0]);
}

#[test]
fn address_to_interface() {
    let a = Address::new([0x00u8, 0x11, 0x22, 0x33, 0x44, 0x55]);
    assert_eq!(a.to_interface().get(), [0x02, 0x11, 0x22, 0xFF, 0xFE, 0x33, 0x44, 0x55]);
    assert_eq!(Address::<[u8; 6]>::default(), Address::<[u8; 6]>::zero());
    assert_eq!(Address::<[u8; 8]>::broadcast().get(), [0xFF; 8]);
    assert!(Address::new([1u8; 6]) < Address::new([2u8; 6]));
}
