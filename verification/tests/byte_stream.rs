use mud_comms::descriptor::Descriptor;
use mud_comms::descriptor::DescriptorId;
use mud_comms::descriptor::ByteStreamDescriptor;

#[test]
fn descriptor_id_keeps_its_fields() {
    let id = DescriptorId::new("C042", "SLACK");
    assert_eq!(id.identifier, "C042");
    assert_eq!(id.descriptor_type, "SLACK");
    let copy = id.clone();
    assert_eq!(copy, id);
}

#[test]
fn byte_stream_reads_fed_bytes_in_order() {
    let mut d = ByteStreamDescriptor::new("console".to_owned());
    assert_eq!(d.get_hostname(), "console");
    let mut buf = vec![0u8; 4];
    // Nothing pending: Ok(0), no error, no blocking.
    assert_eq!(d.read(&mut buf), Ok(0));
    d.feed(&b"abcdef".to_vec());
    assert_eq!(d.read(&mut buf), Ok(4));
    assert_eq!(&buf[..], b"abcd");
    assert_eq!(d.read(&mut buf), Ok(2));
    assert_eq!(&buf[..2], b"ef");
    assert_eq!(d.read(&mut buf), Ok(0));
}

#[test]
fn byte_stream_write_accepts_everything() {
    let mut d = ByteStreamDescriptor::new("console".to_owned());
    assert_eq!(d.write(&b"Hi ".to_vec()), Ok(3));
    assert_eq!(d.write(&b"there".to_vec()), Ok(5));
    assert_eq!(d.flush(), Ok(()));
    assert_eq!(d.take_written(), b"Hi there".to_vec());
    assert_eq!(d.take_written(), Vec::<u8>::new());
}

#[test]
fn a_three_byte_write_is_retrievable_in_one_read() {
    // A client sends 3 bytes; one read returns Ok(3) with the exact bytes.
    let mut d = ByteStreamDescriptor::new("127.0.0.1".to_owned());
    d.feed(&b"up\n".to_vec());
    let mut buf = vec![0u8; 512];
    assert_eq!(d.read(&mut buf), Ok(3));
    assert_eq!(&buf[..3], b"up\n");
    assert_eq!(d.get_hostname(), "127.0.0.1");
}
