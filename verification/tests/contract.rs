use unisock::message::copy_message;
use unisock::udp_single_sock::Udp;
use unisock::{AsyncBackend, AsyncConnection, AsyncListener, Endpoint, Error, UdpSingle};

/// A transport in memory: what is written to a connection is what the next
/// read returns.
struct Echo {
    local: Endpoint,
}

struct EchoConnection {
    peer: Endpoint,
    pending: Vec<Vec<u8>>,
}

impl AsyncBackend for Echo {
    type Error = Error;
    type Listener<'a> = &'a Echo;
    type Connection<'a> = EchoConnection;

    fn bind(addr: Endpoint) -> Result<Self, Error> {
        Ok(Echo { local: addr })
    }

    fn listen(&self) -> Result<&Echo, Error> {
        Ok(self)
    }

    fn connect(&self, addr: Endpoint) -> Result<EchoConnection, Error> {
        if addr == self.local {
            return Err(Error::AddressInUse);
        }
        Ok(EchoConnection { peer: addr, pending: Vec::new() })
    }
}

impl AsyncListener for &Echo {
    type Error = Error;
    type Connection<'a>
        = EchoConnection
    where
        Self: 'a;

    fn accept(&self) -> Result<(EchoConnection, Endpoint), Error> {
        Ok((EchoConnection { peer: self.local, pending: Vec::new() }, self.local))
    }

    fn close(self) -> Result<(), Error> {
        Ok(())
    }
}

impl AsyncConnection for EchoConnection {
    type Error = Error;

    fn read(&mut self, buf: &mut [u8]) -> Result<usize, Error> {
        if self.pending.is_empty() {
            return Ok(0);
        }
        let message = self.pending.remove(0);
        Ok(copy_message(buf, &message))
    }

    fn write(&mut self, buf: &[u8]) -> Result<usize, Error> {
        self.pending.push(buf.to_vec());
        Ok(buf.len())
    }

    fn close(self) -> Result<(), Error> {
        Ok(())
    }
}

fn round_trip<B: AsyncBackend>(backend: &B, peer: Endpoint, message: &[u8], room: usize) -> Vec<u8>
where
    B::Error: std::fmt::Debug,
{
    let mut conn = backend.connect(peer).expect("the peer is free");
    assert_eq!(conn.write(message).expect("written"), message.len());
    let mut buf = vec![0u8; room];
    let n = conn.read(&mut buf).expect("read");
    assert!(n <= buf.len());
    buf.truncate(n);
    conn.close().expect("closed");
    buf
}

#[test]
fn one_read_yields_one_written_message() {
    let echo = Echo::bind(Endpoint::v4(127, 0, 0, 1, 9000)).expect("bound");
    let peer = Endpoint::v4(127, 0, 0, 1, 40000);
    assert_eq!(round_trip(&echo, peer, b"hello", 16), b"hello".to_vec());
    assert_eq!(round_trip(&echo, peer, b"hello", 2), b"he".to_vec());
}

#[test]
fn listener_hands_out_connections() {
    let local = Endpoint::v4(127, 0, 0, 1, 9000);
    let echo = Echo::bind(local).expect("bound");
    let listener = echo.listen().expect("listening");
    let (mut conn, from) = listener.accept().expect("accepted");
    assert_eq!(from, local);
    assert_eq!(conn.peer, local);
    assert_eq!(conn.read(&mut [0u8; 4]), Ok(0));
    assert_eq!(listener.close(), Ok(()));
    assert_eq!(echo.connect(local).err(), Some(Error::AddressInUse));
}

#[test]
fn single_socket_udp_has_a_short_name() {
    let udp: UdpSingle = Udp::bind(Endpoint::v4(127, 0, 0, 1, 9000));
    assert_eq!(udp.local_addr(), Endpoint::v4(127, 0, 0, 1, 9000));
}
