//! The transport that an accepted connection is handed on as.
use rustls_acme::futures_rustls::server::TlsStream;
use vstd::prelude::*;

verus! {

/// futures-rustls's server side of an established TLS session over `IO`.
#[verifier::external_type_specification]
#[verifier::external_body]
#[verifier::reject_recursive_types(IO)]
pub struct ExTlsStream<IO>(TlsStream<IO>);

/// `TlsStream::get_mut` borrows the two halves of a stream; this hands on
/// the first, the raw socket beneath the TLS session.
#[verifier::external_body]
fn raw_socket_mut<Input>(stream: &mut TlsStream<Input>) -> (socket: &mut Input) {
    stream.get_mut().0
}

/// `TlsStream::get_ref` borrows the two halves of a stream; this hands on
/// the first, the raw socket beneath the TLS session.
#[verifier::external_body]
fn raw_socket_ref<Input>(stream: &TlsStream<Input>) -> (socket: &Input) {
    stream.get_ref().0
}

/// What becomes of one operation on a [`Transport`].
pub enum Step<S, R> {
    /// The transport is closed. The operation is complete with this result,
    /// and nothing is read from or written to any socket.
    Ready(R),
    /// The transport is live. The operation belongs to this stream or
    /// socket, with its arguments as they are and its result as it comes.
    Forward(S),
}

/// Either an established TLS stream, or a connection that was closed after
/// it answered an ACME tls-alpn-01 challenge.
#[derive(Debug)]
#[verifier::reject_recursive_types(Input)]
pub struct Transport<Input>(Option<TlsStream<Input>>);

impl<Input> Transport<Input> {
    /// The TLS stream of a live transport; `None` for a closed one.
    pub closed spec fn stream(&self) -> Option<TlsStream<Input>> {
        self.0
    }

    /// The transport of a connection that is closed.
    pub fn empty() -> (transport: Self)
        ensures
            transport.stream() is None,
    {
        Transport(None)
    }

    /// The transport of a connection that serves `stream`.
    pub fn live(stream: TlsStream<Input>) -> (transport: Self)
        ensures
            transport.stream() == Some(stream),
    {
        Transport(Some(stream))
    }

    /// The transport that is left of a validation probe's connection once
    /// its TLS stream has been shut down. The stream ends here.
    pub fn shut_down(stream: TlsStream<Input>) -> (transport: Self)
        ensures
            transport.stream() is None,
    {
        Transport(None)
    }

    /// Whether this transport stands for a closed connection.
    pub fn is_empty(&self) -> (empty: bool)
        ensures
            empty == (self.stream() is None),
    {
        self.0.is_none()
    }

    /// The one decision behind every operation of the byte stream: a closed
    /// transport answers by itself, a live one leaves the operation to its
    /// TLS stream.
    fn stream_step<R>(&mut self, closed_result: R) -> (step: Step<&mut TlsStream<Input>, R>)
        ensures
            match old(self).stream() {
                None => step == Step::<&mut TlsStream<Input>, R>::Ready(closed_result)
                    && final(self).stream() is None,
                Some(stream) => step matches Step::Forward(forwarded) && *forwarded == stream
                    && final(self).stream() == Some(*final(forwarded)),
            },
    {
        match self.0.as_mut() {
            None => Step::Ready(closed_result),
            Some(stream) => Step::Forward(stream),
        }
    }

    /// The one decision behind every socket setting: on a closed transport
    /// it succeeds and does nothing, on a live one it goes to the raw
    /// socket beneath the TLS stream.
    fn socket_step(&mut self) -> (step: Step<&mut Input, ()>)
        ensures
            match old(self).stream() {
                None => step == Step::<&mut Input, ()>::Ready(()) && final(self).stream() is None,
                Some(_) => step is Forward && final(self).stream() is Some,
            },
    {
        match self.0.as_mut() {
            None => Step::Ready(()),
            Some(stream) => Step::Forward(raw_socket_mut(stream)),
        }
    }

    /// A read. A closed transport is at end of stream: zero bytes, at once,
    /// every time.
    pub fn poll_read(&mut self) -> (step: Step<&mut TlsStream<Input>, usize>)
        ensures
            match old(self).stream() {
                None => step == Step::<&mut TlsStream<Input>, usize>::Ready(0)
                    && final(self).stream() is None,
                Some(stream) => step matches Step::Forward(forwarded) && *forwarded == stream
                    && final(self).stream() == Some(*final(forwarded)),
            },
    {
        self.stream_step(0)
    }

    /// A read into several buffers. A closed transport is at end of stream.
    pub fn poll_read_vectored(&mut self) -> (step: Step<&mut TlsStream<Input>, usize>)
        ensures
            match old(self).stream() {
                None => step == Step::<&mut TlsStream<Input>, usize>::Ready(0)
                    && final(self).stream() is None,
                Some(stream) => step matches Step::Forward(forwarded) && *forwarded == stream
                    && final(self).stream() == Some(*final(forwarded)),
            },
    {
        self.stream_step(0)
    }

    /// A write. A closed transport succeeds, reports zero bytes taken and
    /// transmits nothing.
    pub fn poll_write(&mut self) -> (step: Step<&mut TlsStream<Input>, usize>)
        ensures
            match old(self).stream() {
                None => step == Step::<&mut TlsStream<Input>, usize>::Ready(0)
                    && final(self).stream() is None,
                Some(stream) => step matches Step::Forward(forwarded) && *forwarded == stream
                    && final(self).stream() == Some(*final(forwarded)),
            },
    {
        self.stream_step(0)
    }

    /// A write from several buffers. A closed transport reports zero bytes
    /// taken and transmits nothing.
    pub fn poll_write_vectored(&mut self) -> (step: Step<&mut TlsStream<Input>, usize>)
        ensures
            match old(self).stream() {
                None => step == Step::<&mut TlsStream<Input>, usize>::Ready(0)
                    && final(self).stream() is None,
                Some(stream) => step matches Step::Forward(forwarded) && *forwarded == stream
                    && final(self).stream() == Some(*final(forwarded)),
            },
    {
        self.stream_step(0)
    }

    /// A flush. A closed transport has nothing to flush and succeeds.
    pub fn poll_flush(&mut self) -> (step: Step<&mut TlsStream<Input>, ()>)
        ensures
            match old(self).stream() {
                None => step == Step::<&mut TlsStream<Input>, ()>::Ready(())
                    && final(self).stream() is None,
                Some(stream) => step matches Step::Forward(forwarded) && *forwarded == stream
                    && final(self).stream() == Some(*final(forwarded)),
            },
    {
        self.stream_step(())
    }

    /// A close. A closed transport is closed already and succeeds.
    pub fn poll_close(&mut self) -> (step: Step<&mut TlsStream<Input>, ()>)
        ensures
            match old(self).stream() {
                None => step == Step::<&mut TlsStream<Input>, ()>::Ready(())
                    && final(self).stream() is None,
                Some(stream) => step matches Step::Forward(forwarded) && *forwarded == stream
                    && final(self).stream() == Some(*final(forwarded)),
            },
    {
        self.stream_step(())
    }

    /// Setting the IP time-to-live.
    pub fn set_ip_ttl(&mut self) -> (step: Step<&mut Input, ()>)
        ensures
            match old(self).stream() {
                None => step == Step::<&mut Input, ()>::Ready(()) && final(self).stream() is None,
                Some(_) => step is Forward && final(self).stream() is Some,
            },
    {
        self.socket_step()
    }

    /// Setting the linger duration.
    pub fn set_linger(&mut self) -> (step: Step<&mut Input, ()>)
        ensures
            match old(self).stream() {
                None => step == Step::<&mut Input, ()>::Ready(()) && final(self).stream() is None,
                Some(_) => step is Forward && final(self).stream() is Some,
            },
    {
        self.socket_step()
    }

    /// Setting the no-delay option.
    pub fn set_nodelay(&mut self) -> (step: Step<&mut Input, ()>)
        ensures
            match old(self).stream() {
                None => step == Step::<&mut Input, ()>::Ready(()) && final(self).stream() is None,
                Some(_) => step is Forward && final(self).stream() is Some,
            },
    {
        self.socket_step()
    }

    /// The address of the peer, in the caller's address type `A`. That of a
    /// closed transport is unknown; a live one's raw socket is asked.
    pub fn peer_addr<A>(&self) -> (step: Step<&Input, Option<A>>)
        ensures
            match self.stream() {
                None => step == Step::<&Input, Option<A>>::Ready(None),
                Some(_) => step is Forward,
            },
    {
        match self.0.as_ref() {
            None => Step::Ready(None),
            Some(stream) => Step::Forward(raw_socket_ref(stream)),
        }
    }
}

} // verus!
