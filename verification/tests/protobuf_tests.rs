use self_writer::protobuf::md::{
    decode_magick, decode_msg_size, msg_size_from_varint, recive_md_header, MdError, MsgSizeReader,
};
use self_writer::protobuf::chunk_buffer::ChunkBuffer;
use self_writer::protobuf::messages::Info;
use self_writer::protobuf::stream::Stream;

struct MockStream {
    data: Vec<u8>,
    pos: usize,
}

impl MockStream {
    fn new(bytes: &[u8]) -> Self {
        Self { data: bytes.to_vec(), pos: 0 }
    }
}

impl Stream<()> for MockStream {
    fn read(&mut self, buf: &mut [u8]) -> Result<(), ()> {
        if self.pos >= self.data.len() {
            return Err(());
        }
        let n = core::cmp::min(buf.len(), self.data.len() - self.pos);
        buf[..n].copy_from_slice(&self.data[self.pos..self.pos + n]);
        self.pos += n;
        Ok(())
    }

    fn read_all(&mut self) -> Result<Vec<u8>, ()> {
        let rest = self.data[self.pos..].to_vec();
        self.pos = self.data.len();
        Ok(rest)
    }
}

#[test]
fn decode_magick_and_size() {
    // construct stream: first magick byte, then varint length 5 (0x05)
    let bytes = [Info::Magick.value() as u8, 0x05u8];
    let mut s = MockStream::new(&bytes);

    // decode_magick should succeed
    let res = decode_magick::<(), MockStream>(&mut s);
    assert!(res.is_ok());

    // after decoding magick, decode_msg_size should read the next byte and return 5
    // reset stream to start at second byte for decode_msg_size
    let mut s2 = MockStream::new(&bytes[1..]);
    let sz = decode_msg_size::<(), MockStream>(&mut s2).expect("decode size");
    assert_eq!(sz, 5usize);
}

#[test]
fn decode_magick_refuses_other_byte() {
    let mut s = MockStream::new(&[0x08]);
    assert_eq!(decode_magick::<(), MockStream>(&mut s), Err(MdError::InvalidMagick(0x08)));
    let mut empty = MockStream::new(&[]);
    assert_eq!(decode_magick::<(), MockStream>(&mut empty), Err(MdError::Input));
}

#[test]
fn two_byte_length_is_decoded() {
    // 150 = 0x96 0x01
    let mut s = MockStream::new(&[0x96, 0x01]);
    assert_eq!(decode_msg_size::<(), MockStream>(&mut s), Ok(150));
}

#[test]
fn lengths_out_of_range_are_refused() {
    assert_eq!(msg_size_from_varint(&[0x00]), Err(MdError::InvalidLength(0)));
    // 1501 = 0xDD 0x0B
    assert_eq!(msg_size_from_varint(&[0xDD, 0x0B]), Err(MdError::InvalidLength(1501)));
    assert_eq!(msg_size_from_varint(&[0xDC, 0x0B]), Ok(1500));
    assert_eq!(msg_size_from_varint(&[0x80, 0x80]), Err(MdError::InvalidVarint));
}

#[test]
fn header_reads_magick_then_length() {
    let mut s = MockStream::new(&[0x09, 0x07, 0xaa]);
    assert_eq!(recive_md_header::<(), MockStream>(&mut s), Ok(7));
    let mut t = MockStream::new(&[0x09, 0x80]);
    assert_eq!(recive_md_header::<(), MockStream>(&mut t), Err(MdError::Input));
}

#[test]
fn size_reader_completes_on_last_byte() {
    let mut r = MsgSizeReader::new();
    assert_eq!(r.push(0x96), None);
    assert_eq!(r.push(0x01), Some(Ok(150)));
    let mut z = MsgSizeReader::new();
    assert_eq!(z.push(0x00), Some(Err(MdError::InvalidLength(0))));
}

#[test]
fn chunk_buffer_hands_out_prefixes() {
    let mut b = ChunkBuffer::new();
    assert!(b.is_empty());
    b.refill(vec![1, 2, 3, 4, 5]);
    assert!(!b.is_empty());
    assert_eq!(b.take(2), vec![1, 2]);
    assert_eq!(b.take(10), vec![3, 4, 5]);
    assert!(b.is_empty());
    assert_eq!(b.take(3), Vec::<u8>::new());
}
